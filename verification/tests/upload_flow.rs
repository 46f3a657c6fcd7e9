use pan_transfer::errors::TransferError;
use pan_transfer::models::{
    PresignedUrlData, PresignedUrlResponse, UploadRequestData, UploadRequestResponse,
};
use pan_transfer::progress::TransferStatus;
use pan_transfer::upload::{UploadCommand, UploadCoordinator, UploadEvent, UploadState};

const MIB: u64 = 1024 * 1024;

fn chunked_response(file_id: i64) -> UploadRequestResponse {
    UploadRequestResponse {
        code: 0,
        message: String::new(),
        data: Some(UploadRequestData {
            file_id,
            reuse: false,
            upload_id: Some("up-1".to_string()),
            key: Some("obj/key".to_string()),
            bucket: Some("bucket-9".to_string()),
            storage_node: Some("node-3".to_string()),
        }),
    }
}

fn url_reply(part: u64, url: &str) -> PresignedUrlResponse {
    PresignedUrlResponse {
        code: 0,
        data: Some(PresignedUrlData { presigned_urls: vec![(part, url.to_string())] }),
    }
}

fn start_negotiating(size: u64) -> UploadCoordinator {
    let (c, ev, cmd) = UploadCoordinator::start();
    assert_eq!(ev.percent, 0);
    assert!(matches!(ev.status, TransferStatus::Hashing));
    assert!(matches!(cmd, UploadCommand::ComputeHash));
    let (c, emit, cmd) = c.step(UploadEvent::HashDone { fingerprint: "abcd".to_string(), size });
    assert!(emit.is_none());
    match cmd {
        UploadCommand::SendNegotiation { duplicate_policy, size: s, .. } => {
            assert_eq!(duplicate_policy, 0);
            assert_eq!(s, size);
        },
        _ => panic!("expected a negotiation request"),
    }
    c
}

#[test]
fn twelve_mib_upload_sends_three_parts_and_finishes_at_100() {
    let size = 12 * MIB;
    let c = start_negotiating(size);
    let (c, emit, cmd) = c.step(UploadEvent::NegotiationReply { response: chunked_response(99) });
    assert!(emit.is_none());
    assert!(matches!(cmd, UploadCommand::InitParts { .. }));
    let (mut c, emit, cmd) = c.step(UploadEvent::PartsInitialized);
    assert!(emit.is_none());
    assert!(matches!(cmd, UploadCommand::ReadChunk));

    let mut percents: Vec<u64> = Vec::new();
    let mut parts_fetched: Vec<u64> = Vec::new();
    let mut part_lens: Vec<u64> = Vec::new();
    let mut sent = 0u64;
    loop {
        let len = (size - sent).min(5 * MIB);
        let (c2, emit, cmd2) = c.step(UploadEvent::ChunkRead { len });
        c = c2;
        assert!(emit.is_none());
        if len == 0 {
            assert!(matches!(cmd2, UploadCommand::CompleteStorage { .. }));
            break;
        }
        part_lens.push(len);
        let part = match cmd2 {
            UploadCommand::FetchPartUrl { part_number, .. } => part_number,
            _ => panic!("expected a destination-url fetch"),
        };
        parts_fetched.push(part);
        let (c3, emit, cmd3) =
            c.step(UploadEvent::PartUrlReply { response: url_reply(part, "https://storage/put") });
        c = c3;
        assert!(emit.is_none());
        assert!(matches!(cmd3, UploadCommand::PutPart { .. }));
        let (c4, emit, cmd4) = c.step(UploadEvent::PartPutDone);
        c = c4;
        let e = emit.expect("each finished part reports progress");
        assert!(matches!(e.status, TransferStatus::Uploading));
        percents.push(e.percent);
        assert!(matches!(cmd4, UploadCommand::ReadChunk));
        sent += len;
    }
    assert_eq!(parts_fetched, vec![1, 2, 3]);
    assert_eq!(part_lens, vec![5 * MIB, 5 * MIB, 2 * MIB]);
    assert_eq!(percents, vec![41, 83, 100]);
    for w in percents.windows(2) {
        assert!(w[0] <= w[1]);
    }

    let (c, emit, cmd) = c.step(UploadEvent::StorageCompleted { http_success: true });
    assert!(emit.is_none());
    assert!(matches!(cmd, UploadCommand::CompleteService { final_file_id: 99 }));
    let (c, emit, cmd) = c.step(UploadEvent::ServiceCompleted { http_success: true });
    let e = emit.expect("a successful upload ends with an event");
    assert_eq!(e.percent, 100);
    assert!(matches!(e.status, TransferStatus::Finished));
    assert!(matches!(cmd, UploadCommand::Succeed));
    assert!(matches!(c.state, UploadState::Finished));
}

#[test]
fn reuse_negotiation_finishes_without_any_transfer_call() {
    let c = start_negotiating(3 * MIB);
    let response = UploadRequestResponse {
        code: 0,
        message: String::new(),
        data: Some(UploadRequestData {
            file_id: 7,
            reuse: true,
            upload_id: None,
            key: None,
            bucket: None,
            storage_node: None,
        }),
    };
    let (c, emit, cmd) = c.step(UploadEvent::NegotiationReply { response });
    let e = emit.expect("instant completion still reports");
    assert_eq!(e.percent, 100);
    assert!(matches!(e.status, TransferStatus::Finished));
    assert!(matches!(cmd, UploadCommand::Succeed));
    assert!(matches!(c.state, UploadState::Finished));
}

#[test]
fn name_conflict_retries_once_with_rename_policy() {
    let c = start_negotiating(MIB);
    let conflict = UploadRequestResponse { code: 5060, message: "exists".to_string(), data: None };
    let (c, emit, cmd) = c.step(UploadEvent::NegotiationReply { response: conflict });
    assert!(emit.is_none());
    match cmd {
        UploadCommand::SendNegotiation { duplicate_policy, .. } => assert_eq!(duplicate_policy, 2),
        _ => panic!("expected one retried negotiation"),
    }
    let conflict_again =
        UploadRequestResponse { code: 5060, message: "exists".to_string(), data: None };
    let (c, emit, cmd) = c.step(UploadEvent::NegotiationReply { response: conflict_again });
    let e = emit.expect("a failure reports an error event");
    assert!(matches!(e.status, TransferStatus::Error));
    match cmd {
        UploadCommand::Fail { error: TransferError::ApiError { code, .. } } => {
            assert_eq!(code, 5060)
        },
        _ => panic!("a second conflict must fail, not retry"),
    }
    assert!(matches!(c.state, UploadState::Failed { .. }));
}

#[test]
fn missing_chunk_session_fields_is_a_protocol_error() {
    let c = start_negotiating(MIB);
    let response = UploadRequestResponse {
        code: 0,
        message: String::new(),
        data: Some(UploadRequestData {
            file_id: 7,
            reuse: false,
            upload_id: Some("up".to_string()),
            key: Some("k".to_string()),
            bucket: Some("b".to_string()),
            storage_node: None,
        }),
    };
    let (_c, emit, cmd) = c.step(UploadEvent::NegotiationReply { response });
    let e = emit.expect("a failure reports an error event");
    assert!(matches!(e.status, TransferStatus::Error));
    assert_eq!(e.message, "missing chunk session fields");
    assert!(matches!(cmd, UploadCommand::Fail { error: TransferError::ProtocolError { .. } }));
}

#[test]
fn rejected_negotiation_carries_code_and_message() {
    let c = start_negotiating(MIB);
    let response =
        UploadRequestResponse { code: 42, message: "quota exceeded".to_string(), data: None };
    let (_c, emit, cmd) = c.step(UploadEvent::NegotiationReply { response });
    let e = emit.expect("a failure reports an error event");
    assert_eq!(e.message, "quota exceeded");
    match cmd {
        UploadCommand::Fail { error: TransferError::ApiError { code, message } } => {
            assert_eq!(code, 42);
            assert_eq!(message, "quota exceeded");
        },
        _ => panic!("expected a service rejection"),
    }
}

#[test]
fn hash_failure_is_an_io_error() {
    let (c, _ev, _cmd) = UploadCoordinator::start();
    let (_c, emit, cmd) =
        c.step(UploadEvent::HashFailed { message: "permission denied".to_string() });
    let e = emit.expect("a failure reports an error event");
    assert!(matches!(e.status, TransferStatus::Error));
    assert_eq!(e.percent, 0);
    match cmd {
        UploadCommand::Fail { error: TransferError::IoError { message } } => {
            assert_eq!(message, "permission denied")
        },
        _ => panic!("expected an io error"),
    }
}

#[test]
fn transport_failure_during_negotiation_is_a_network_error() {
    let c = start_negotiating(MIB);
    let (_c, _emit, cmd) =
        c.step(UploadEvent::TransportFailed { message: "connection reset".to_string() });
    assert!(matches!(cmd, UploadCommand::Fail { error: TransferError::NetworkError { .. } }));
}

#[test]
fn missing_part_url_is_a_protocol_error() {
    let c = start_negotiating(7 * MIB);
    let (c, _e, _cmd) = c.step(UploadEvent::NegotiationReply { response: chunked_response(1) });
    let (c, _e, _cmd) = c.step(UploadEvent::PartsInitialized);
    let (c, _e, _cmd) = c.step(UploadEvent::ChunkRead { len: 5 * MIB });
    let reply = url_reply(8, "https://storage/put");
    let (_c, emit, cmd) = c.step(UploadEvent::PartUrlReply { response: reply });
    let e = emit.expect("a failure reports an error event");
    assert_eq!(e.message, "no upload url for part");
    assert!(matches!(cmd, UploadCommand::Fail { error: TransferError::ProtocolError { .. } }));
}

#[test]
fn refused_part_url_request_is_an_api_error() {
    let c = start_negotiating(7 * MIB);
    let (c, _e, _cmd) = c.step(UploadEvent::NegotiationReply { response: chunked_response(1) });
    let (c, _e, _cmd) = c.step(UploadEvent::PartsInitialized);
    let (c, _e, _cmd) = c.step(UploadEvent::ChunkRead { len: 5 * MIB });
    let reply = PresignedUrlResponse { code: 19, data: None };
    let (_c, _emit, cmd) = c.step(UploadEvent::PartUrlReply { response: reply });
    match cmd {
        UploadCommand::Fail { error: TransferError::ApiError { code, .. } } => {
            assert_eq!(code, 19)
        },
        _ => panic!("expected an api error"),
    }
}

#[test]
fn refused_storage_completion_is_a_finalize_error() {
    let c = start_negotiating(MIB);
    let (c, _e, _cmd) = c.step(UploadEvent::NegotiationReply { response: chunked_response(1) });
    let (c, _e, _cmd) = c.step(UploadEvent::PartsInitialized);
    let (c, _e, _cmd) = c.step(UploadEvent::ChunkRead { len: MIB });
    let (c, _e, _cmd) =
        c.step(UploadEvent::PartUrlReply { response: url_reply(1, "https://storage/put") });
    let (c, _e, _cmd) = c.step(UploadEvent::PartPutDone);
    let (c, _e, _cmd) = c.step(UploadEvent::ChunkRead { len: 0 });
    let (_c, _emit, cmd) = c.step(UploadEvent::StorageCompleted { http_success: false });
    assert!(matches!(cmd, UploadCommand::Fail { error: TransferError::FinalizeError { .. } }));
}

#[test]
fn refused_service_completion_is_a_finalize_error() {
    let c = start_negotiating(MIB);
    let (c, _e, _cmd) = c.step(UploadEvent::NegotiationReply { response: chunked_response(1) });
    let (c, _e, _cmd) = c.step(UploadEvent::PartsInitialized);
    let (c, _e, _cmd) = c.step(UploadEvent::ChunkRead { len: 0 });
    let (c, _e, _cmd) = c.step(UploadEvent::StorageCompleted { http_success: true });
    let (_c, _emit, cmd) = c.step(UploadEvent::ServiceCompleted { http_success: false });
    assert!(matches!(cmd, UploadCommand::Fail { error: TransferError::FinalizeError { .. } }));
}

#[test]
fn empty_file_uploads_no_parts_and_finishes() {
    let c = start_negotiating(0);
    let (c, _e, _cmd) = c.step(UploadEvent::NegotiationReply { response: chunked_response(4) });
    let (c, emit, _cmd) = c.step(UploadEvent::PartsInitialized);
    assert!(emit.is_none());
    let (c, emit, cmd) = c.step(UploadEvent::ChunkRead { len: 0 });
    assert!(emit.is_none());
    assert!(matches!(cmd, UploadCommand::CompleteStorage { .. }));
    let (c, emit, _cmd) = c.step(UploadEvent::StorageCompleted { http_success: true });
    assert!(emit.is_none());
    let (_c, emit, cmd) = c.step(UploadEvent::ServiceCompleted { http_success: true });
    let e = emit.expect("the final event is still reported");
    assert_eq!(e.percent, 100);
    assert!(matches!(e.status, TransferStatus::Finished));
    assert!(matches!(cmd, UploadCommand::Succeed));
}
