use pan_transfer::download::{
    resolve_probe, ticket_from_response, wants_batch_download, DownloadStreamer, ProbeReply,
};
use pan_transfer::errors::TransferError;
use pan_transfer::href::extract_href_url;
use pan_transfer::models::{DownloadInfoData, DownloadInfoResponse};
use pan_transfer::progress::TransferStatus;

#[test]
fn folders_use_the_batch_endpoint() {
    assert!(wants_batch_download(1));
    assert!(!wants_batch_download(0));
}

#[test]
fn ticket_comes_from_a_successful_reply() {
    let response = DownloadInfoResponse {
        code: 0,
        message: String::new(),
        data: Some(DownloadInfoData { download_url: "https://svc/ticket".to_string() }),
    };
    assert_eq!(ticket_from_response(response).unwrap(), "https://svc/ticket");
}

#[test]
fn refused_download_info_is_an_api_error() {
    let response =
        DownloadInfoResponse { code: 12, message: "not found".to_string(), data: None };
    match ticket_from_response(response) {
        Err(TransferError::ApiError { code, message }) => {
            assert_eq!(code, 12);
            assert_eq!(message, "not found");
        },
        _ => panic!("expected an api error"),
    }
}

#[test]
fn empty_download_info_is_a_protocol_error() {
    let response = DownloadInfoResponse { code: 0, message: String::new(), data: None };
    assert!(matches!(
        ticket_from_response(response),
        Err(TransferError::ProtocolError { .. })
    ));
}

#[test]
fn location_header_is_returned_verbatim() {
    let reply = ProbeReply::Redirect { location: "https://cdn.example/file?sig=1".to_string() };
    assert_eq!(resolve_probe(reply).unwrap(), "https://cdn.example/file?sig=1");
}

#[test]
fn page_anchor_is_extracted() {
    let body = "<html><body><a href='https://x/y'>download</a></body></html>".to_string();
    assert_eq!(resolve_probe(ProbeReply::Page { body }).unwrap(), "https://x/y");
}

#[test]
fn first_anchor_wins() {
    let body =
        "x href='https://first/a' y href='https://second/b' z".to_string();
    assert_eq!(resolve_probe(ProbeReply::Page { body }).unwrap(), "https://first/a");
}

#[test]
fn plain_http_anchor_is_extracted() {
    let body = "<a href='http://plain/u'>d</a>".to_string();
    assert_eq!(resolve_probe(ProbeReply::Page { body }).unwrap(), "http://plain/u");
}

#[test]
fn other_schemes_are_not_extracted() {
    let body = "<a href='ftp://host/u'>d</a>".to_string();
    match resolve_probe(ProbeReply::Page { body }) {
        Err(TransferError::ResolutionError { message }) => {
            assert_eq!(message, "no download URL found")
        },
        _ => panic!("expected a resolution error"),
    }
}

#[test]
fn empty_url_anchor_is_skipped() {
    let body = "a href='https://' b href='https://real/u' c".to_string();
    assert_eq!(resolve_probe(ProbeReply::Page { body }).unwrap(), "https://real/u");
}

#[test]
fn page_without_anchor_is_a_resolution_error() {
    let body = "<html>no links here, href=\"https://double.quoted\"</html>".to_string();
    assert!(matches!(
        resolve_probe(ProbeReply::Page { body }),
        Err(TransferError::ResolutionError { .. })
    ));
}

#[test]
fn extractor_agrees_with_a_reference_regex() {
    let re = regex::Regex::new(r"href='(https?://[^']+)'").unwrap();
    let bodies = [
        "plain text",
        "<a href='https://x/y'>d</a>",
        "<a href='http://x/y'>d</a>",
        "pre href='https://a' post href='http://b'",
        "broken href='https:/missing' then href='http://ok/1'",
        "unterminated href='https://never-closed",
        "empty href='https://' then href='https://second'",
        "unicode £α href='https://ünï/pæth' trailer",
        "href='ftp://no' href='https://yes/2'",
    ];
    for body in bodies {
        let expected = re.captures(body).and_then(|c| c.get(1)).map(|m| m.as_str().to_string());
        let got = extract_href_url(body);
        assert_eq!(got, expected, "body: {}", body);
    }
}

#[test]
fn unknown_size_suppresses_percentages_until_finished() {
    let mut s = DownloadStreamer::new(None, 0);
    assert!(s.on_chunk(4096).is_none());
    assert!(s.on_chunk(4096).is_none());
    let e = s.finish();
    assert_eq!(e.percent, 100);
    assert!(matches!(e.status, TransferStatus::Finished));
}

#[test]
fn known_size_reports_monotonic_percentages() {
    let mut s = DownloadStreamer::new(Some(200), 0);
    let mut percents = Vec::new();
    for _ in 0..4 {
        percents.push(s.on_chunk(50).expect("size is known"));
    }
    assert_eq!(percents, vec![25, 50, 75, 100]);
    for w in percents.windows(2) {
        assert!(w[0] <= w[1]);
    }
    let e = s.finish();
    assert_eq!(e.percent, 100);
    assert!(matches!(e.status, TransferStatus::Finished));
}

#[test]
fn declared_size_is_the_fallback_total() {
    let mut s = DownloadStreamer::new(None, 100);
    assert_eq!(s.on_chunk(50), Some(50));
}

#[test]
fn content_length_beats_declared_size() {
    let mut s = DownloadStreamer::new(Some(100), 7);
    assert_eq!(s.on_chunk(50), Some(50));
}

#[test]
fn interstitial_page_download_resolves_then_streams() {
    let info = DownloadInfoResponse {
        code: 0,
        message: String::new(),
        data: Some(DownloadInfoData { download_url: "https://svc/intermediate".to_string() }),
    };
    let intermediate = ticket_from_response(info).unwrap();
    assert_eq!(intermediate, "https://svc/intermediate");
    let body =
        "<html><a href='https://bytes.example/final'>click</a></html>".to_string();
    let final_url = resolve_probe(ProbeReply::Page { body }).unwrap();
    assert_eq!(final_url, "https://bytes.example/final");
    let mut s = DownloadStreamer::new(Some(8), 0);
    let mut events = Vec::new();
    for _ in 0..2 {
        if let Some(p) = s.on_chunk(4) {
            events.push(p);
        }
    }
    assert_eq!(events, vec![50, 100]);
    let e = s.finish();
    assert_eq!(e.percent, 100);
    assert!(matches!(e.status, TransferStatus::Finished));
}
