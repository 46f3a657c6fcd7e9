//! Download link resolution and streaming progress accounting.
//!
//! A download runs in three steps: obtain a download ticket (an intermediate
//! URL) from the service, resolve that URL to the final byte-serving URL —
//! the probe answers either with a redirect header or with an HTML page that
//! carries the link textually — and stream the final URL's body to disk
//! while reporting progress.

use crate::errors::TransferError;
use crate::href::extracted_href;
use crate::href::extract_href_url;
use crate::models::DownloadInfoResponse;
use crate::progress::{percent_spec, ProgressEvent, TransferStatus};
use vstd::prelude::*;

verus! {

/// Which endpoint yields the download ticket: folders are fetched as a
/// packaged archive through the batch endpoint, files through the per-file
/// endpoint.  Kind 1 marks a folder.
pub fn wants_batch_download(file_type: i32) -> (b: bool)
    ensures
        b == (file_type == 1),
{
    file_type == 1
}

/// The download ticket carried by a download-info reply: the intermediate
/// URL when the service reports success and a payload, the mapped error
/// otherwise.
pub fn ticket_from_response(response: DownloadInfoResponse) -> (r: Result<String, TransferError>)
    ensures
        response.code != 0 ==> (r matches Err(e) && e matches TransferError::ApiError {
            code,
            message,
        } && code == response.code && message == response.message),
        response.code == 0 && response.data is None ==> (r matches Err(e)
            && e matches TransferError::ProtocolError { message } && message@
            == "download info carried no url"@),
        response.code == 0 ==> (response.data matches Some(d) ==> (r matches Ok(url) && url
            == d.download_url)),
{
    if response.code != 0 {
        Err(TransferError::ApiError { code: response.code, message: response.message })
    } else {
        match response.data {
            Some(d) => Ok(d.download_url),
            None => Err(
                TransferError::ProtocolError {
                    message: String::from_str("download info carried no url"),
                },
            ),
        }
    }
}

/// What probing the intermediate URL (with redirects suppressed) answered:
/// either a redirect header or the page body.
pub enum ProbeReply {
    /// The response carried a `location`-style header with this value.
    Redirect { location: String },
    /// No such header; this is the response body read as text.
    Page { body: String },
}

/// The final byte-serving URL for a probe reply: the header value verbatim
/// when a location header is present; otherwise the leftmost
/// `href='http(s)://...'` anchor of the page, or a resolution error when the
/// page holds none.
pub fn resolve_probe(reply: ProbeReply) -> (r: Result<String, TransferError>)
    ensures
        reply matches ProbeReply::Redirect { location } ==> (r matches Ok(url) && url == location),
        reply matches ProbeReply::Page { body } ==> match extracted_href(body@) {
            Some(u) => r matches Ok(url) && url@ == u,
            None => r matches Err(e) && e matches TransferError::ResolutionError { message }
                && message@ == "no download URL found"@,
        },
{
    match reply {
        ProbeReply::Redirect { location } => Ok(location),
        ProbeReply::Page { body } => match extract_href_url(body.as_str()) {
            Some(url) => Ok(url),
            None => Err(
                TransferError::ResolutionError { message: String::from_str("no download URL found") },
            ),
        },
    }
}

/// The total size a download reports progress against: the transport's
/// declared content length when present, else the caller-declared size when
/// positive, else 0 — meaning unknown, suppressing percentages.
pub open spec fn effective_total_spec(content_length: Option<u64>, declared_size: i64) -> u64 {
    match content_length {
        Some(n) => n,
        None => if declared_size > 0 {
            declared_size as u64
        } else {
            0
        },
    }
}

/// Streams a response body to disk chunk by chunk, accounting progress.
pub struct DownloadStreamer {
    /// The size progress is measured against; 0 means unknown.
    pub total: u64,
    /// Bytes written so far.
    pub downloaded: u64,
    /// The last percentage handed out, 0 before the first.
    pub emitted: u64,
}

impl DownloadStreamer {
    /// The emitted percentage always reflects the byte counter.
    pub open spec fn wf(&self) -> bool {
        &&& self.emitted == if self.total > 0 && self.downloaded > 0 {
            percent_spec(self.downloaded, self.total)
        } else {
            0int
        }
        &&& self.downloaded * 100 <= u64::MAX
    }

    /// A streamer for one download, before any byte arrives.
    pub fn new(content_length: Option<u64>, declared_size: i64) -> (s: DownloadStreamer)
        ensures
            s.wf(),
            s.total == effective_total_spec(content_length, declared_size),
            s.downloaded == 0,
            s.emitted == 0,
    {
        let total: u64 = match content_length {
            Some(n) => n,
            None => if declared_size > 0 {
                declared_size as u64
            } else {
                0
            },
        };
        DownloadStreamer { total, downloaded: 0, emitted: 0 }
    }

    /// Account one chunk written to disk.  When the total size is known, the
    /// percentage to report — never below an earlier one; when it is
    /// unknown, nothing.
    pub fn on_chunk(&mut self, len: u64) -> (p: Option<u64>)
        requires
            old(self).wf(),
            (old(self).downloaded + len) * 100 <= u64::MAX,
        ensures
            final(self).wf(),
            final(self).total == old(self).total,
            final(self).downloaded == old(self).downloaded + len,
            old(self).total == 0 ==> p is None && final(self).emitted == old(self).emitted,
            old(self).total > 0 ==> (p matches Some(x) && x == percent_spec(
                final(self).downloaded,
                old(self).total,
            ) && final(self).emitted == x),
            p matches Some(x) ==> x >= old(self).emitted,
    {
        proof {
            vstd::arithmetic::mul::lemma_mul_inequality(
                old(self).downloaded as int,
                old(self).downloaded + len,
                100,
            );
        }
        self.downloaded = self.downloaded + len;
        if self.total > 0 {
            let percent = (self.downloaded * 100) / self.total;
            proof {
                vstd::arithmetic::div_mod::lemma_div_is_ordered(
                    old(self).downloaded * 100,
                    self.downloaded * 100,
                    self.total as int,
                );
                vstd::arithmetic::div_mod::lemma_div_pos_is_pos(
                    self.downloaded * 100,
                    self.total as int,
                );
            }
            self.emitted = percent;
            Some(percent)
        } else {
            None
        }
    }

    /// The terminal event of a download that ended cleanly: always
    /// 100 / finished.
    pub fn finish(&mut self) -> (ev: ProgressEvent)
        ensures
            final(self).total == old(self).total,
            final(self).downloaded == old(self).downloaded,
            final(self).emitted == 100,
            ev.percent == 100,
            ev.status is Finished,
            ev.message@ == Seq::<char>::empty(),
    {
        self.emitted = 100;
        ProgressEvent { percent: 100, status: TransferStatus::Finished, message: String::new() }
    }
}

/// While the byte counter stays within the known total, every reported
/// percentage is at most 100, so the terminal 100 never undercuts an
/// earlier report.
pub proof fn lemma_download_percent_bounded(downloaded: u64, total: u64)
    requires
        total > 0,
        downloaded <= total,
    ensures
        percent_spec(downloaded, total) <= 100,
{
    vstd::arithmetic::mul::lemma_mul_inequality(downloaded as int, total as int, 100);
    vstd::arithmetic::div_mod::lemma_div_is_ordered(
        downloaded * 100,
        total * 100,
        total as int,
    );
    vstd::arithmetic::div_mod::lemma_div_by_multiple(100, total as int);
}

} // verus!
