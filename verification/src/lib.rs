//! Client-side transfer engine for a remote object-storage service:
//! content fingerprinting, upload negotiation and chunked part upload,
//! download link resolution, and streaming progress accounting.

pub mod auth;
pub mod chunk;
pub mod download;
pub mod errors;
pub mod hasher;
pub mod headers;
pub mod href;
pub mod models;
pub mod progress;
pub mod upload;
