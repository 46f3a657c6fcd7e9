//! Plain data carried between the remote service and the transfer engine.
//!
//! These mirror the JSON bodies of the service's API.  The engine itself only
//! reads and writes plain values; turning them into or out of wire JSON is the
//! caller's concern.

use vstd::prelude::*;

verus! {

/// Generic envelope of a service reply: a status code, an optional
/// human-readable message, and an optional payload.
#[derive(Debug)]
pub struct ApiResponse<T> {
    pub code: i32,
    pub message: Option<String>,
    pub data: Option<T>,
}

/// Reply to the sign-in call.
#[derive(Debug)]
pub struct LoginResponse {
    pub code: i32,
    pub message: String,
    pub data: Option<LoginData>,
}

/// Payload of a successful sign-in: the bearer credential.
#[derive(Debug)]
pub struct LoginData {
    pub token: String,
}

/// One page of a directory listing.
#[derive(Debug)]
pub struct FileListData {
    pub info_list: Vec<FileInfo>,
    pub total: Option<i64>,
}

/// One remote entry: identity, name, size, kind (0 = file, 1 = folder),
/// optional content fingerprint and storage-key flag.
#[derive(Debug, Clone)]
pub struct FileInfo {
    pub file_id: i64,
    pub file_name: String,
    pub size: i64,
    pub file_type: i32,
    pub etag: Option<String>,
    pub s3_key_flag: Option<String>,
}

/// Reply to a download-info request.
#[derive(Debug)]
pub struct DownloadInfoResponse {
    pub code: i32,
    pub message: String,
    pub data: Option<DownloadInfoData>,
}

/// Payload of a download-info reply: the intermediate URL, which still needs
/// one resolution step before it serves bytes.
#[derive(Debug)]
pub struct DownloadInfoData {
    pub download_url: String,
}

/// Reply to the upload negotiation request.
#[derive(Debug)]
pub struct UploadRequestResponse {
    pub code: i32,
    pub message: String,
    pub data: Option<UploadRequestData>,
}

/// Payload of an upload negotiation reply.  `reuse` signals an instant
/// completion; otherwise the four chunk-session fields are expected together.
#[derive(Debug)]
pub struct UploadRequestData {
    pub file_id: i64,
    pub reuse: bool,
    pub upload_id: Option<String>,
    pub key: Option<String>,
    pub bucket: Option<String>,
    pub storage_node: Option<String>,
}

/// Reply to a per-part destination-URL request.
#[derive(Debug)]
pub struct PresignedUrlResponse {
    pub code: i32,
    pub data: Option<PresignedUrlData>,
}

/// Destination URLs keyed by part number.
#[derive(Debug)]
pub struct PresignedUrlData {
    pub presigned_urls: Vec<(u64, String)>,
}

/// Reply to a share-creation request.
#[derive(Debug)]
pub struct ShareResponse {
    pub code: i32,
    pub message: String,
    pub data: Option<ShareData>,
}

/// Payload of a share-creation reply.
#[derive(Debug)]
pub struct ShareData {
    pub share_key: String,
}

/// What a caller gets back after sharing: the share link and its password.
#[derive(Debug)]
pub struct ShareResult {
    pub share_url: String,
    pub share_pwd: String,
}

} // verus!
