//! The upload state machine: negotiate, then either finish instantly on a
//! content match or stream fixed-size parts, then finalize.
//!
//! The coordinator decides; the caller performs.  Each step consumes one
//! event — the outcome of the action the coordinator asked for last — and
//! returns the next state, at most one progress event for the sink, and the
//! next action.  Every decision of the machine is pinned by
//! `upload_transition`, so the laws about reuse, the single name-conflict
//! retry, part accounting, and progress monotonicity are proved against the
//! same relation the executable step satisfies.

use crate::chunk::PART_SIZE;
use crate::errors::TransferError;
use crate::models::{PresignedUrlResponse, UploadRequestData, UploadRequestResponse};
use crate::progress::{percent_of, percent_spec, ProgressEvent, TransferStatus};
use vstd::prelude::*;

verus! {

/// The service code that signals a name conflict on negotiation; it triggers
/// the single automatic retry, with the duplicate policy set to auto-rename.
pub const NAME_CONFLICT_CODE: i32 = 5060;

/// Duplicate-handling policy sent with the first negotiation: ask.
pub const DUPLICATE_ASK: i32 = 0;

/// Duplicate-handling policy sent with the retried negotiation: auto-rename.
pub const DUPLICATE_RENAME: i32 = 2;

/// The multipart upload context a successful negotiation opens.
pub struct ChunkSession {
    pub upload_id: String,
    pub key: String,
    pub bucket: String,
    pub storage_node: String,
    pub final_file_id: i64,
}

impl ChunkSession {
    /// An exact copy of this session.
    pub fn duplicate(&self) -> (r: ChunkSession)
        ensures
            r == *self,
    {
        ChunkSession {
            upload_id: self.upload_id.clone(),
            key: self.key.clone(),
            bucket: self.bucket.clone(),
            storage_node: self.storage_node.clone(),
            final_file_id: self.final_file_id,
        }
    }
}

/// A negotiation payload carries a full chunk session: all four storage
/// fields are present together.
pub open spec fn has_chunk_session(d: UploadRequestData) -> bool {
    d.upload_id is Some && d.key is Some && d.bucket is Some && d.storage_node is Some
}

/// `sess` is exactly the chunk session the negotiation payload `d` opened.
pub open spec fn chunk_session_of(d: UploadRequestData, sess: ChunkSession) -> bool {
    &&& d.upload_id matches Some(u) && sess.upload_id == u
    &&& d.key matches Some(k) && sess.key == k
    &&& d.bucket matches Some(b) && sess.bucket == b
    &&& d.storage_node matches Some(n) && sess.storage_node == n
    &&& sess.final_file_id == d.file_id
}

/// The destination URL recorded for `part` in a list of `(part, url)` pairs;
/// the first match wins.
pub open spec fn lookup_url(pairs: Seq<(u64, String)>, part: u64) -> Option<String>
    decreases pairs.len(),
{
    if pairs.len() == 0 {
        None
    } else if pairs[0].0 == part {
        Some(pairs[0].1)
    } else {
        lookup_url(pairs.drop_first(), part)
    }
}

/// The destination URL a part-URL reply carries for `part`, if any.
pub open spec fn response_part_url(r: PresignedUrlResponse, part: u64) -> Option<String> {
    match r.data {
        None => None,
        Some(d) => lookup_url(d.presigned_urls@, part),
    }
}

/// The destination URL recorded for `part`, by the first matching pair.
pub fn find_part_url(pairs: &Vec<(u64, String)>, part: u64) -> (r: Option<String>)
    ensures
        match lookup_url(pairs@, part) {
            Some(u) => r matches Some(x) && x == u,
            None => r is None,
        },
{
    let n = pairs.len();
    let mut idx: usize = 0;
    proof {
        assert(pairs@.skip(0) =~= pairs@);
    }
    while idx < n
        invariant
            n == pairs@.len(),
            idx <= n,
            lookup_url(pairs@, part) == lookup_url(pairs@.skip(idx as int), part),
        decreases n - idx,
    {
        proof {
            assert(pairs@.skip(idx as int)[0] == pairs@[idx as int]);
            assert(pairs@.skip(idx as int).drop_first() =~= pairs@.skip(idx as int + 1));
        }
        if pairs[idx].0 == part {
            return Some(pairs[idx].1.clone());
        }
        idx = idx + 1;
    }
    proof {
        assert(pairs@.skip(n as int).len() == 0);
    }
    None
}

/// The total number of bytes over the recorded part sizes.
pub open spec fn sum_u64(s: Seq<u64>) -> int
    decreases s.len(),
{
    if s.len() == 0 {
        0
    } else {
        s[0] + sum_u64(s.drop_first())
    }
}

/// Recording one more part adds its size to the total.
pub proof fn lemma_sum_u64_push(s: Seq<u64>, x: u64)
    ensures
        sum_u64(s.push(x)) == sum_u64(s) + x,
    decreases s.len(),
{
    if s.len() == 0 {
        assert(s.push(x)[0] == x);
        assert(s.push(x).drop_first() =~= Seq::<u64>::empty());
        assert(sum_u64(Seq::<u64>::empty()) == 0);
        assert(sum_u64(s.push(x)) == x + sum_u64(s.push(x).drop_first()));
    } else {
        lemma_sum_u64_push(s.drop_first(), x);
        assert(s.push(x)[0] == s[0]);
        assert(s.push(x).drop_first() =~= s.drop_first().push(x));
        assert(sum_u64(s) == s[0] + sum_u64(s.drop_first()));
        assert(sum_u64(s.push(x)) == s[0] + sum_u64(s.push(x).drop_first()));
    }
}

/// Where an upload stands.
pub enum UploadState {
    /// Computing the content fingerprint.
    Hashing,
    /// A negotiation request is out; `renamed` marks the retried request.
    Negotiating { renamed: bool, fingerprint: String, size: u64 },
    /// The one-time part-registry initialization call is out.
    InitializingParts { session: ChunkSession, size: u64 },
    /// Waiting for the next buffer read from the file.
    AwaitingChunk {
        session: ChunkSession,
        size: u64,
        next_part: u64,
        sent: u64,
        parts: Ghost<Seq<u64>>,
    },
    /// Waiting for the single-use destination URL of part `next_part`.
    AwaitingPartUrl {
        session: ChunkSession,
        size: u64,
        next_part: u64,
        sent: u64,
        chunk_len: u64,
        parts: Ghost<Seq<u64>>,
    },
    /// Waiting for the part bytes to reach their destination.
    AwaitingPartPut {
        session: ChunkSession,
        size: u64,
        next_part: u64,
        sent: u64,
        chunk_len: u64,
        parts: Ghost<Seq<u64>>,
    },
    /// Waiting for the storage-side completion signal's outcome.
    CompletingStorage { session: ChunkSession, size: u64, sent: u64, parts: Ghost<Seq<u64>> },
    /// Waiting for the service-side completion signal's outcome.
    CompletingService { final_file_id: i64, size: u64, sent: u64, parts: Ghost<Seq<u64>> },
    /// Terminal success.
    Finished,
    /// Terminal failure.
    Failed { error: TransferError },
}

/// The outcome of the action the coordinator asked for last.
#[allow(inconsistent_fields)]
pub enum UploadEvent {
    /// Hashing finished with this fingerprint and byte length.
    HashDone { fingerprint: String, size: u64 },
    /// The file could not be opened or read while hashing.
    HashFailed { message: String },
    /// The negotiation call answered.
    NegotiationReply { response: UploadRequestResponse },
    /// The part-registry initialization call was delivered.
    PartsInitialized,
    /// One buffer was read from the file; 0 bytes means end of file.
    ChunkRead { len: u64 },
    /// Reading the file failed mid-stream.
    ReadFailed { message: String },
    /// The destination-URL call answered.
    PartUrlReply { response: PresignedUrlResponse },
    /// The part bytes were delivered to their destination.
    PartPutDone,
    /// The storage-side completion call answered; was its status a success?
    StorageCompleted { http_success: bool },
    /// The service-side completion call answered; was its status a success?
    ServiceCompleted { http_success: bool },
    /// A request could not be delivered at all.
    TransportFailed { message: String },
}

/// What the caller must do next.
pub enum UploadCommand {
    /// Hash the file.
    ComputeHash,
    /// Send the negotiation request with this duplicate policy.
    SendNegotiation { fingerprint: String, size: u64, duplicate_policy: i32 },
    /// Send the one-time part-registry initialization call.
    InitParts { session: ChunkSession },
    /// Read the next buffer, up to `PART_SIZE` bytes, from the file.
    ReadChunk,
    /// Request the single-use destination URL for this part.
    FetchPartUrl { session: ChunkSession, part_number: u64 },
    /// Stream the buffer just read to this URL, without the bearer
    /// credential: the destination is pre-authorized.
    PutPart { url: String },
    /// Send the storage-side completion signal.
    CompleteStorage { session: ChunkSession },
    /// Send the service-side completion signal for this file.
    CompleteService { final_file_id: i64 },
    /// The upload is done.
    Succeed,
    /// The upload failed; return this error.
    Fail { error: TransferError },
}

/// Drives one upload from hashing to completion.
pub struct UploadCoordinator {
    pub state: UploadState,
    /// The last percentage emitted, 0 before the first.
    pub emitted: u64,
}

/// The error a failed coordinator carries.
pub open spec fn failure_of(post: UploadCoordinator) -> TransferError
    recommends
        post.state is Failed,
{
    post.state->error
}

/// Shape of every transition into `Failed`: the state records the error, an
/// error event carrying its reason is emitted at the unchanged percentage,
/// and the caller is told to fail with the same error.
pub open spec fn fails(
    pre: UploadCoordinator,
    post: UploadCoordinator,
    emit: Option<ProgressEvent>,
    cmd: UploadCommand,
) -> bool {
    &&& post.state is Failed
    &&& post.emitted == pre.emitted
    &&& emit matches Some(e) && e.percent == pre.emitted && e.status is Error && e.message@
        == failure_of(post).message_view()
    &&& cmd matches UploadCommand::Fail { error } && error == failure_of(post)
}

/// The accounting invariant of the part loop: the byte counter is the sum of
/// the recorded part sizes, parts are numbered densely from 1, no part is
/// empty or over-long, and no byte beyond the hashed size was counted.
pub open spec fn parts_wf(parts: Seq<u64>, sent: u64, next_part: u64, size: u64) -> bool {
    &&& sent == sum_u64(parts)
    &&& next_part == parts.len() + 1
    &&& parts.len() <= sent
    &&& sent <= size
    &&& size < u64::MAX
    &&& forall|i: int| 0 <= i < parts.len() ==> 1 <= #[trigger] parts[i] <= PART_SIZE
}

/// The emitted percentage reflects the byte counter: 0 before the first
/// part, `floor(sent * 100 / size)` after, and never above 100.
pub open spec fn emitted_wf(emitted: u64, parts: Seq<u64>, sent: u64, size: u64) -> bool {
    &&& emitted == if parts.len() == 0 {
        0int
    } else {
        percent_spec(sent, size)
    }
    &&& emitted <= 100
}

impl UploadCoordinator {
    /// The coordinator's invariant, preserved by every step.
    pub open spec fn wf(self) -> bool {
        match self.state {
            UploadState::Hashing => self.emitted == 0,
            UploadState::Negotiating { size, .. } => self.emitted == 0 && size < u64::MAX,
            UploadState::InitializingParts { size, .. } => self.emitted == 0 && size < u64::MAX,
            UploadState::AwaitingChunk { size, next_part, sent, parts, .. } => {
                &&& parts_wf(parts@, sent, next_part, size)
                &&& emitted_wf(self.emitted, parts@, sent, size)
            },
            UploadState::AwaitingPartUrl { size, next_part, sent, chunk_len, parts, .. } => {
                &&& parts_wf(parts@, sent, next_part, size)
                &&& emitted_wf(self.emitted, parts@, sent, size)
                &&& 1 <= chunk_len <= PART_SIZE
                &&& sent + chunk_len <= size
            },
            UploadState::AwaitingPartPut { size, next_part, sent, chunk_len, parts, .. } => {
                &&& parts_wf(parts@, sent, next_part, size)
                &&& emitted_wf(self.emitted, parts@, sent, size)
                &&& 1 <= chunk_len <= PART_SIZE
                &&& sent + chunk_len <= size
            },
            UploadState::CompletingStorage { size, sent, parts, .. } => {
                &&& sent == sum_u64(parts@)
                &&& sent <= size
                &&& emitted_wf(self.emitted, parts@, sent, size)
            },
            UploadState::CompletingService { size, sent, parts, .. } => {
                &&& sent == sum_u64(parts@)
                &&& sent <= size
                &&& emitted_wf(self.emitted, parts@, sent, size)
            },
            UploadState::Finished => self.emitted == 100,
            UploadState::Failed { .. } => true,
        }
    }

    /// Which event the coordinator is prepared to consume.  A buffer read
    /// may not exceed the part size — the caller's buffer is that large —
    /// nor carry the byte counter past the hashed size: the file is assumed
    /// unchanged since hashing.  Terminal states consume nothing.
    pub open spec fn accepts(self, ev: UploadEvent) -> bool {
        match (self.state, ev) {
            (UploadState::Hashing, UploadEvent::HashDone { size, .. }) => size < u64::MAX,
            (UploadState::Hashing, UploadEvent::HashFailed { .. }) => true,
            (UploadState::Negotiating { .. }, UploadEvent::NegotiationReply { .. }) => true,
            (UploadState::InitializingParts { .. }, UploadEvent::PartsInitialized) => true,
            (
                UploadState::AwaitingChunk { size, sent, .. },
                UploadEvent::ChunkRead { len },
            ) => len <= PART_SIZE && sent + len <= size,
            (UploadState::AwaitingChunk { .. }, UploadEvent::ReadFailed { .. }) => true,
            (UploadState::AwaitingPartUrl { .. }, UploadEvent::PartUrlReply { .. }) => true,
            (UploadState::AwaitingPartPut { .. }, UploadEvent::PartPutDone) => true,
            (UploadState::CompletingStorage { .. }, UploadEvent::StorageCompleted { .. }) => true,
            (UploadState::CompletingService { .. }, UploadEvent::ServiceCompleted { .. }) => true,
            (
                UploadState::Negotiating { .. }
                | UploadState::InitializingParts { .. }
                | UploadState::AwaitingPartUrl { .. }
                | UploadState::AwaitingPartPut { .. }
                | UploadState::CompletingStorage { .. }
                | UploadState::CompletingService { .. },
                UploadEvent::TransportFailed { .. },
            ) => true,
            _ => false,
        }
    }
}

/// The machine's transition relation: for an accepted `(pre, ev)` pair it
/// pins the next state, the emitted event, and the command exactly.
pub open spec fn upload_transition(
    pre: UploadCoordinator,
    ev: UploadEvent,
    post: UploadCoordinator,
    emit: Option<ProgressEvent>,
    cmd: UploadCommand,
) -> bool {
    match (pre.state, ev) {
        (UploadState::Hashing, UploadEvent::HashDone { fingerprint, size }) => {
            &&& post.state matches UploadState::Negotiating {
                renamed,
                fingerprint: f,
                size: s,
            } && renamed == false && f == fingerprint && s == size
            &&& post.emitted == pre.emitted
            &&& emit is None
            &&& cmd matches UploadCommand::SendNegotiation {
                fingerprint: f2,
                size: s2,
                duplicate_policy,
            } && f2 == fingerprint && s2 == size && duplicate_policy == DUPLICATE_ASK
        },
        (UploadState::Hashing, UploadEvent::HashFailed { message }) => {
            &&& fails(pre, post, emit, cmd)
            &&& failure_of(post) matches TransferError::IoError { message: m } && m == message
        },
        (
            UploadState::Negotiating { renamed, fingerprint, size },
            UploadEvent::NegotiationReply { response },
        ) => {
            if response.code == NAME_CONFLICT_CODE && !renamed {
                &&& post.state matches UploadState::Negotiating {
                    renamed: r2,
                    fingerprint: f,
                    size: s,
                } && r2 == true && f == fingerprint && s == size
                &&& post.emitted == pre.emitted
                &&& emit is None
                &&& cmd matches UploadCommand::SendNegotiation {
                    fingerprint: f2,
                    size: s2,
                    duplicate_policy,
                } && f2 == fingerprint && s2 == size && duplicate_policy == DUPLICATE_RENAME
            } else if response.code != 0 {
                &&& fails(pre, post, emit, cmd)
                &&& failure_of(post) matches TransferError::ApiError { code, message } && code
                    == response.code && message == response.message
            } else {
                match response.data {
                    None => {
                        &&& fails(pre, post, emit, cmd)
                        &&& failure_of(post) matches TransferError::ProtocolError { message }
                            && message@ == "negotiation carried no data"@
                    },
                    Some(d) => {
                        if d.reuse {
                            &&& post.state is Finished
                            &&& post.emitted == 100
                            &&& emit matches Some(e) && e.percent == 100 && e.status is Finished
                                && e.message@ == Seq::<char>::empty()
                            &&& cmd is Succeed
                        } else if has_chunk_session(d) {
                            &&& post.state matches UploadState::InitializingParts {
                                session,
                                size: s,
                            } && chunk_session_of(d, session) && s == size
                            &&& post.emitted == pre.emitted
                            &&& emit is None
                            &&& cmd matches UploadCommand::InitParts { session }
                                && chunk_session_of(d, session)
                        } else {
                            &&& fails(pre, post, emit, cmd)
                            &&& failure_of(post) matches TransferError::ProtocolError { message }
                                && message@ == "missing chunk session fields"@
                        }
                    },
                }
            }
        },
        (
            UploadState::InitializingParts { session, size },
            UploadEvent::PartsInitialized,
        ) => {
            &&& post.state matches UploadState::AwaitingChunk {
                session: s2,
                size: sz,
                next_part,
                sent,
                parts,
            } && s2 == session && sz == size && next_part == 1 && sent == 0 && parts@
                == Seq::<u64>::empty()
            &&& post.emitted == pre.emitted
            &&& emit is None
            &&& cmd is ReadChunk
        },
        (
            UploadState::AwaitingChunk { session, size, next_part, sent, parts },
            UploadEvent::ChunkRead { len },
        ) => {
            if len == 0 {
                &&& post.state matches UploadState::CompletingStorage {
                    session: s2,
                    size: sz,
                    sent: st,
                    parts: p2,
                } && s2 == session && sz == size && st == sent && p2@ == parts@
                &&& post.emitted == pre.emitted
                &&& emit is None
                &&& cmd matches UploadCommand::CompleteStorage { session: s3 } && s3 == session
            } else {
                &&& post.state matches UploadState::AwaitingPartUrl {
                    session: s2,
                    size: sz,
                    next_part: np,
                    sent: st,
                    chunk_len,
                    parts: p2,
                } && s2 == session && sz == size && np == next_part && st == sent && chunk_len
                    == len && p2@ == parts@
                &&& post.emitted == pre.emitted
                &&& emit is None
                &&& cmd matches UploadCommand::FetchPartUrl { session: s3, part_number } && s3
                    == session && part_number == next_part
            }
        },
        (UploadState::AwaitingChunk { .. }, UploadEvent::ReadFailed { message }) => {
            &&& fails(pre, post, emit, cmd)
            &&& failure_of(post) matches TransferError::IoError { message: m } && m == message
        },
        (
            UploadState::AwaitingPartUrl { session, size, next_part, sent, chunk_len, parts },
            UploadEvent::PartUrlReply { response },
        ) => {
            if response.code != 0 {
                &&& fails(pre, post, emit, cmd)
                &&& failure_of(post) matches TransferError::ApiError { code, message } && code
                    == response.code && message@ == "part url request refused"@
            } else {
                match response_part_url(response, next_part) {
                    None => {
                        &&& fails(pre, post, emit, cmd)
                        &&& failure_of(post) matches TransferError::ProtocolError { message }
                            && message@ == "no upload url for part"@
                    },
                    Some(url) => {
                        &&& post.state matches UploadState::AwaitingPartPut {
                            session: s2,
                            size: sz,
                            next_part: np,
                            sent: st,
                            chunk_len: cl,
                            parts: p2,
                        } && s2 == session && sz == size && np == next_part && st == sent && cl
                            == chunk_len && p2@ == parts@
                        &&& post.emitted == pre.emitted
                        &&& emit is None
                        &&& cmd matches UploadCommand::PutPart { url: u2 } && u2 == url
                    },
                }
            }
        },
        (
            UploadState::AwaitingPartPut { session, size, next_part, sent, chunk_len, parts },
            UploadEvent::PartPutDone,
        ) => {
            &&& post.state matches UploadState::AwaitingChunk {
                session: s2,
                size: sz,
                next_part: np,
                sent: st,
                parts: p2,
            } && s2 == session && sz == size && np == next_part + 1 && st == sent + chunk_len
                && p2@ == parts@.push(chunk_len)
            &&& post.emitted == percent_spec((sent + chunk_len) as u64, size)
            &&& emit matches Some(e) && e.percent == percent_spec((sent + chunk_len) as u64, size)
                && e.status is Uploading && e.message@ == Seq::<char>::empty()
            &&& cmd is ReadChunk
        },
        (
            UploadState::CompletingStorage { session, size, sent, parts },
            UploadEvent::StorageCompleted { http_success },
        ) => {
            if http_success {
                &&& post.state matches UploadState::CompletingService {
                    final_file_id,
                    size: sz,
                    sent: st,
                    parts: p2,
                } && final_file_id == session.final_file_id && sz == size && st == sent && p2@
                    == parts@
                &&& post.emitted == pre.emitted
                &&& emit is None
                &&& cmd matches UploadCommand::CompleteService { final_file_id: f2 } && f2
                    == session.final_file_id
            } else {
                &&& fails(pre, post, emit, cmd)
                &&& failure_of(post) matches TransferError::FinalizeError { message } && message@
                    == "storage completion refused"@
            }
        },
        (
            UploadState::CompletingService { .. },
            UploadEvent::ServiceCompleted { http_success },
        ) => {
            if http_success {
                &&& post.state is Finished
                &&& post.emitted == 100
                &&& emit matches Some(e) && e.percent == 100 && e.status is Finished && e.message@
                    == Seq::<char>::empty()
                &&& cmd is Succeed
            } else {
                &&& fails(pre, post, emit, cmd)
                &&& failure_of(post) matches TransferError::FinalizeError { message } && message@
                    == "service completion refused"@
            }
        },
        (
            UploadState::Negotiating { .. }
            | UploadState::InitializingParts { .. }
            | UploadState::AwaitingPartUrl { .. }
            | UploadState::AwaitingPartPut { .. },
            UploadEvent::TransportFailed { message },
        ) => {
            &&& fails(pre, post, emit, cmd)
            &&& failure_of(post) matches TransferError::NetworkError { message: m } && m == message
        },
        (
            UploadState::CompletingStorage { .. } | UploadState::CompletingService { .. },
            UploadEvent::TransportFailed { message },
        ) => {
            &&& fails(pre, post, emit, cmd)
            &&& failure_of(post) matches TransferError::FinalizeError { message: m } && m
                == message
        },
        _ => false,
    }
}

/// A negotiation answered with `reuse` completes the upload at once: the
/// coordinator moves straight to `Finished`, reports 100 / finished, and
/// asks for nothing beyond `Succeed` — no part-registry initialization, no
/// destination-URL fetch, no part upload.  With
/// `lemma_terminal_accepts_nothing`, no later step of that upload can issue
/// such a call either.
pub proof fn lemma_reuse_skips_chunking(
    pre: UploadCoordinator,
    ev: UploadEvent,
    post: UploadCoordinator,
    emit: Option<ProgressEvent>,
    cmd: UploadCommand,
)
    requires
        upload_transition(pre, ev, post, emit, cmd),
        pre.state is Negotiating,
        ({
            &&& ev matches UploadEvent::NegotiationReply { response }
            &&& response.code == 0
            &&& response.data matches Some(d)
            &&& d.reuse
        }),
    ensures
        post.state is Finished,
        cmd is Succeed,
        emit matches Some(e) && e.percent == 100 && e.status is Finished,
        !(cmd is InitParts),
        !(cmd is FetchPartUrl),
        !(cmd is PutPart),
{
}

/// Terminal states accept no event: once an upload is `Finished` or
/// `Failed`, the coordinator never asks for another call.
pub proof fn lemma_terminal_accepts_nothing(c: UploadCoordinator, ev: UploadEvent)
    requires
        c.state is Finished || c.state is Failed,
    ensures
        !c.accepts(ev),
{
}

/// A name-conflict reply to the first negotiation triggers exactly one
/// retried negotiation, with the duplicate policy set to auto-rename; a
/// name-conflict reply to the retried negotiation fails the upload instead
/// of negotiating a third time.
pub proof fn lemma_conflict_retries_once(
    pre: UploadCoordinator,
    ev: UploadEvent,
    post: UploadCoordinator,
    emit: Option<ProgressEvent>,
    cmd: UploadCommand,
)
    requires
        upload_transition(pre, ev, post, emit, cmd),
        pre.state is Negotiating,
        ev matches UploadEvent::NegotiationReply { response } && response.code
            == NAME_CONFLICT_CODE,
    ensures
        pre.state matches UploadState::Negotiating { renamed: false, .. } ==> ({
            &&& post.state matches UploadState::Negotiating { renamed: true, .. }
            &&& cmd matches UploadCommand::SendNegotiation { duplicate_policy, .. }
                && duplicate_policy == DUPLICATE_RENAME
        }),
        pre.state matches UploadState::Negotiating { renamed: true, .. } ==> ({
            &&& post.state matches UploadState::Failed { error }
                && error matches TransferError::ApiError { code, .. } && code == NAME_CONFLICT_CODE
            &&& cmd matches UploadCommand::Fail { .. }
        }),
{
}

/// Progress events of one upload never decrease: each emitted percentage
/// equals the coordinator's new high-water mark and is at least the old
/// one; and the coordinator reaches `Finished` only while emitting exactly
/// 100 / finished.
pub proof fn lemma_upload_progress_monotonic(
    pre: UploadCoordinator,
    ev: UploadEvent,
    post: UploadCoordinator,
    emit: Option<ProgressEvent>,
    cmd: UploadCommand,
)
    requires
        pre.wf(),
        upload_transition(pre, ev, post, emit, cmd),
    ensures
        emit matches Some(e) ==> e.percent >= pre.emitted && e.percent == post.emitted,
        post.state is Finished ==> (emit matches Some(e) && e.percent == 100
            && e.status is Finished),
{
    match (pre.state, ev) {
        (
            UploadState::AwaitingPartPut { size, sent, chunk_len, parts, .. },
            UploadEvent::PartPutDone,
        ) => {
            if parts@.len() > 0 {
                crate::progress::lemma_percent_monotonic(sent, (sent + chunk_len) as u64, size);
            }
        },
        _ => {},
    }
}

/// At end of file the coordinator finalizes with every transferred byte
/// accounted for: the byte counter is the sum of the recorded part sizes —
/// parts numbered densely from 1 — and when the reads covered the whole
/// hashed size, that sum is exactly the file size.
pub proof fn lemma_eof_accounts_all_bytes(
    pre: UploadCoordinator,
    ev: UploadEvent,
    post: UploadCoordinator,
    emit: Option<ProgressEvent>,
    cmd: UploadCommand,
)
    requires
        pre.wf(),
        upload_transition(pre, ev, post, emit, cmd),
        pre.state is AwaitingChunk,
        ev matches UploadEvent::ChunkRead { len } && len == 0,
    ensures
        post.state matches UploadState::CompletingStorage { sent, parts, .. } && sent
            == sum_u64(parts@),
        (pre.state matches UploadState::AwaitingChunk { size: s0, sent: t0, .. } && t0 == s0)
            ==> (post.state matches UploadState::CompletingStorage { size: s1, sent: t1, .. }
            && t1 == s1 && t1 == sum_u64(post.state->CompletingStorage_parts@)),
{
}

/// Build the triple every failure transition returns.
fn fail_result(emitted: u64, error: TransferError) -> (r: (
    UploadCoordinator,
    Option<ProgressEvent>,
    UploadCommand,
))
    ensures
        r.0.emitted == emitted,
        r.0.state matches UploadState::Failed { error: e } && e == error,
        r.1 matches Some(ev) && ev.percent == emitted && ev.status is Error && ev.message@
            == error.message_view(),
        r.2 matches UploadCommand::Fail { error: e2 } && e2 == error,
{
    let message = error.message().clone();
    let error_copy = error.duplicate();
    (
        UploadCoordinator { state: UploadState::Failed { error }, emitted },
        Some(ProgressEvent { percent: emitted, status: TransferStatus::Error, message }),
        UploadCommand::Fail { error: error_copy },
    )
}

impl UploadCoordinator {
    /// Begin an upload: emit the initial hashing event at 0 and ask the
    /// caller to hash the file.
    pub fn start() -> (r: (UploadCoordinator, ProgressEvent, UploadCommand))
        ensures
            r.0.wf(),
            r.0.state is Hashing,
            r.0.emitted == 0,
            r.1.percent == 0 && r.1.status is Hashing && r.1.message@ == Seq::<char>::empty(),
            r.2 is ComputeHash,
    {
        (
            UploadCoordinator { state: UploadState::Hashing, emitted: 0 },
            ProgressEvent { percent: 0, status: TransferStatus::Hashing, message: String::new() },
            UploadCommand::ComputeHash,
        )
    }

    /// Consume one event and decide the next state, the event to emit, and
    /// the next action, exactly as `upload_transition` states.
    pub fn step(self, ev: UploadEvent) -> (r: (
        UploadCoordinator,
        Option<ProgressEvent>,
        UploadCommand,
    ))
        requires
            self.wf(),
            self.accepts(ev),
        ensures
            r.0.wf(),
            upload_transition(self, ev, r.0, r.1, r.2),
    {
        let emitted = self.emitted;
        match (self.state, ev) {
            (UploadState::Hashing, UploadEvent::HashDone { fingerprint, size }) => {
                let fingerprint_copy = fingerprint.clone();
                (
                    UploadCoordinator {
                        state: UploadState::Negotiating { renamed: false, fingerprint, size },
                        emitted,
                    },
                    None,
                    UploadCommand::SendNegotiation {
                        fingerprint: fingerprint_copy,
                        size,
                        duplicate_policy: DUPLICATE_ASK,
                    },
                )
            },
            (UploadState::Hashing, UploadEvent::HashFailed { message }) => fail_result(
                emitted,
                TransferError::IoError { message },
            ),
            (
                UploadState::Negotiating { renamed, fingerprint, size },
                UploadEvent::NegotiationReply { response },
            ) => {
                if response.code == NAME_CONFLICT_CODE && !renamed {
                    let fingerprint_copy = fingerprint.clone();
                    (
                        UploadCoordinator {
                            state: UploadState::Negotiating { renamed: true, fingerprint, size },
                            emitted,
                        },
                        None,
                        UploadCommand::SendNegotiation {
                            fingerprint: fingerprint_copy,
                            size,
                            duplicate_policy: DUPLICATE_RENAME,
                        },
                    )
                } else if response.code != 0 {
                    fail_result(
                        emitted,
                        TransferError::ApiError { code: response.code, message: response.message },
                    )
                } else {
                    match response.data {
                        None => fail_result(
                            emitted,
                            TransferError::ProtocolError {
                                message: String::from_str("negotiation carried no data"),
                            },
                        ),
                        Some(d) => {
                            if d.reuse {
                                (
                                    UploadCoordinator { state: UploadState::Finished, emitted: 100 },
                                    Some(
                                        ProgressEvent {
                                            percent: 100,
                                            status: TransferStatus::Finished,
                                            message: String::new(),
                                        },
                                    ),
                                    UploadCommand::Succeed,
                                )
                            } else {
                                match (d.upload_id, d.key, d.bucket, d.storage_node) {
                                    (
                                        Some(upload_id),
                                        Some(key),
                                        Some(bucket),
                                        Some(storage_node),
                                    ) => {
                                        let session = ChunkSession {
                                            upload_id,
                                            key,
                                            bucket,
                                            storage_node,
                                            final_file_id: d.file_id,
                                        };
                                        let session_copy = session.duplicate();
                                        (
                                            UploadCoordinator {
                                                state: UploadState::InitializingParts {
                                                    session,
                                                    size,
                                                },
                                                emitted,
                                            },
                                            None,
                                            UploadCommand::InitParts { session: session_copy },
                                        )
                                    },
                                    _ => fail_result(
                                        emitted,
                                        TransferError::ProtocolError {
                                            message: String::from_str(
                                                "missing chunk session fields",
                                            ),
                                        },
                                    ),
                                }
                            }
                        },
                    }
                }
            },
            (
                UploadState::InitializingParts { session, size },
                UploadEvent::PartsInitialized,
            ) => (
                UploadCoordinator {
                    state: UploadState::AwaitingChunk {
                        session,
                        size,
                        next_part: 1,
                        sent: 0,
                        parts: Ghost(Seq::<u64>::empty()),
                    },
                    emitted,
                },
                None,
                UploadCommand::ReadChunk,
            ),
            (
                UploadState::AwaitingChunk { session, size, next_part, sent, parts },
                UploadEvent::ChunkRead { len },
            ) => {
                if len == 0 {
                    let session_copy = session.duplicate();
                    (
                        UploadCoordinator {
                            state: UploadState::CompletingStorage { session, size, sent, parts },
                            emitted,
                        },
                        None,
                        UploadCommand::CompleteStorage { session: session_copy },
                    )
                } else {
                    let session_copy = session.duplicate();
                    (
                        UploadCoordinator {
                            state: UploadState::AwaitingPartUrl {
                                session,
                                size,
                                next_part,
                                sent,
                                chunk_len: len,
                                parts,
                            },
                            emitted,
                        },
                        None,
                        UploadCommand::FetchPartUrl {
                            session: session_copy,
                            part_number: next_part,
                        },
                    )
                }
            },
            (UploadState::AwaitingChunk { .. }, UploadEvent::ReadFailed { message }) => fail_result(
                emitted,
                TransferError::IoError { message },
            ),
            (
                UploadState::AwaitingPartUrl { session, size, next_part, sent, chunk_len, parts },
                UploadEvent::PartUrlReply { response },
            ) => {
                if response.code != 0 {
                    fail_result(
                        emitted,
                        TransferError::ApiError {
                            code: response.code,
                            message: String::from_str("part url request refused"),
                        },
                    )
                } else {
                    let found = match &response.data {
                        Some(d) => find_part_url(&d.presigned_urls, next_part),
                        None => None,
                    };
                    match found {
                        Some(url) => (
                            UploadCoordinator {
                                state: UploadState::AwaitingPartPut {
                                    session,
                                    size,
                                    next_part,
                                    sent,
                                    chunk_len,
                                    parts,
                                },
                                emitted,
                            },
                            None,
                            UploadCommand::PutPart { url },
                        ),
                        None => fail_result(
                            emitted,
                            TransferError::ProtocolError {
                                message: String::from_str("no upload url for part"),
                            },
                        ),
                    }
                }
            },
            (
                UploadState::AwaitingPartPut { session, size, next_part, sent, chunk_len, parts },
                UploadEvent::PartPutDone,
            ) => {
                let new_sent = sent + chunk_len;
                let new_part = next_part + 1;
                let percent = percent_of(new_sent, size);
                proof {
                    lemma_sum_u64_push(parts@, chunk_len);
                }
                (
                    UploadCoordinator {
                        state: UploadState::AwaitingChunk {
                            session,
                            size,
                            next_part: new_part,
                            sent: new_sent,
                            parts: Ghost(parts@.push(chunk_len)),
                        },
                        emitted: percent,
                    },
                    Some(
                        ProgressEvent {
                            percent,
                            status: TransferStatus::Uploading,
                            message: String::new(),
                        },
                    ),
                    UploadCommand::ReadChunk,
                )
            },
            (
                UploadState::CompletingStorage { session, size, sent, parts },
                UploadEvent::StorageCompleted { http_success },
            ) => {
                if http_success {
                    let final_file_id = session.final_file_id;
                    (
                        UploadCoordinator {
                            state: UploadState::CompletingService {
                                final_file_id,
                                size,
                                sent,
                                parts,
                            },
                            emitted,
                        },
                        None,
                        UploadCommand::CompleteService { final_file_id },
                    )
                } else {
                    fail_result(
                        emitted,
                        TransferError::FinalizeError {
                            message: String::from_str("storage completion refused"),
                        },
                    )
                }
            },
            (
                UploadState::CompletingService { .. },
                UploadEvent::ServiceCompleted { http_success },
            ) => {
                if http_success {
                    (
                        UploadCoordinator { state: UploadState::Finished, emitted: 100 },
                        Some(
                            ProgressEvent {
                                percent: 100,
                                status: TransferStatus::Finished,
                                message: String::new(),
                            },
                        ),
                        UploadCommand::Succeed,
                    )
                } else {
                    fail_result(
                        emitted,
                        TransferError::FinalizeError {
                            message: String::from_str("service completion refused"),
                        },
                    )
                }
            },
            (
                UploadState::Negotiating { .. }
                | UploadState::InitializingParts { .. }
                | UploadState::AwaitingPartUrl { .. }
                | UploadState::AwaitingPartPut { .. },
                UploadEvent::TransportFailed { message },
            ) => fail_result(emitted, TransferError::NetworkError { message }),
            (
                UploadState::CompletingStorage { .. } | UploadState::CompletingService { .. },
                UploadEvent::TransportFailed { message },
            ) => fail_result(emitted, TransferError::FinalizeError { message }),
            _ => vstd::pervasive::unreached(),
        }
    }
}

} // verus!
