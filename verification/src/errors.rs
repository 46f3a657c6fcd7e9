//! The transfer engine's error taxonomy.
//!
//! Every failure of an external call is mapped to exactly one of these and is
//! terminal for the current operation; the engine performs no local recovery
//! beyond the single name-conflict retry in upload negotiation.

use vstd::prelude::*;

verus! {

/// Why a transfer failed.
#[derive(Debug)]
pub enum TransferError {
    /// A local file could not be opened, read, or written.
    IoError { message: String },
    /// The transport could not deliver a request.
    NetworkError { message: String },
    /// The remote service answered with a non-success status code.
    ApiError { code: i32, message: String },
    /// A response violated an expected shape, e.g. required fields missing.
    ProtocolError { message: String },
    /// No byte-serving URL could be extracted for a download.
    ResolutionError { message: String },
    /// One of the two upload completion signals failed or was refused.
    FinalizeError { message: String },
}

impl TransferError {
    /// The human-readable reason carried by this error.
    pub open spec fn message_view(&self) -> Seq<char> {
        match self {
            TransferError::IoError { message } => message@,
            TransferError::NetworkError { message } => message@,
            TransferError::ApiError { message, .. } => message@,
            TransferError::ProtocolError { message } => message@,
            TransferError::ResolutionError { message } => message@,
            TransferError::FinalizeError { message } => message@,
        }
    }

    /// The human-readable reason carried by this error.
    pub fn message(&self) -> (m: &String)
        ensures
            m@ == self.message_view(),
    {
        match self {
            TransferError::IoError { message } => message,
            TransferError::NetworkError { message } => message,
            TransferError::ApiError { message, .. } => message,
            TransferError::ProtocolError { message } => message,
            TransferError::ResolutionError { message } => message,
            TransferError::FinalizeError { message } => message,
        }
    }

    /// An exact copy of this error.
    pub fn duplicate(&self) -> (r: TransferError)
        ensures
            r == *self,
    {
        match self {
            TransferError::IoError { message } => TransferError::IoError { message: message.clone() },
            TransferError::NetworkError { message } => TransferError::NetworkError {
                message: message.clone(),
            },
            TransferError::ApiError { code, message } => TransferError::ApiError {
                code: *code,
                message: message.clone(),
            },
            TransferError::ProtocolError { message } => TransferError::ProtocolError {
                message: message.clone(),
            },
            TransferError::ResolutionError { message } => TransferError::ResolutionError {
                message: message.clone(),
            },
            TransferError::FinalizeError { message } => TransferError::FinalizeError {
                message: message.clone(),
            },
        }
    }
}

} // verus!
