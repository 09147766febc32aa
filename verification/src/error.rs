//! Typed errors surfaced to callers of the session controller and the
//! directory. Every native-command failure maps to exactly one variant.

use vstd::prelude::*;
use vstd::string::StringExecFns;
use crate::format::{address_hex, hex_rep};
use crate::status::FfiErrorCode;

verus! {

/// Error taxonomy of the core. The first seven variants mirror the
/// non-success status codes of the native core and carry the last diagnostic
/// text; the last two arise inside the core itself.
#[derive(Debug)]
pub enum AppError {
    NotInitialized(String),
    InvalidParameter(String),
    OperationFailed(String),
    DeviceNotFound(String),
    ConnectionFailed(String),
    AudioInitFailed(String),
    UnknownError(String),
    /// The event channel's consumer was dropped; an event could not be
    /// forwarded.
    BridgeDisconnected,
    /// A connect or disconnect event referenced this address, for which the
    /// directory holds no record.
    AnomalousEvent(u64),
}

/// Mathematical value of an error: diagnostic text as a character sequence.
#[verifier::ext_equal]
pub ghost enum ErrorModel {
    NotInitialized(Seq<char>),
    InvalidParameter(Seq<char>),
    OperationFailed(Seq<char>),
    DeviceNotFound(Seq<char>),
    ConnectionFailed(Seq<char>),
    AudioInitFailed(Seq<char>),
    UnknownError(Seq<char>),
    BridgeDisconnected,
    AnomalousEvent(u64),
}

impl View for AppError {
    type V = ErrorModel;

    open spec fn view(&self) -> ErrorModel {
        match self {
            AppError::NotInitialized(m) => ErrorModel::NotInitialized(m@),
            AppError::InvalidParameter(m) => ErrorModel::InvalidParameter(m@),
            AppError::OperationFailed(m) => ErrorModel::OperationFailed(m@),
            AppError::DeviceNotFound(m) => ErrorModel::DeviceNotFound(m@),
            AppError::ConnectionFailed(m) => ErrorModel::ConnectionFailed(m@),
            AppError::AudioInitFailed(m) => ErrorModel::AudioInitFailed(m@),
            AppError::UnknownError(m) => ErrorModel::UnknownError(m@),
            AppError::BridgeDisconnected => ErrorModel::BridgeDisconnected,
            AppError::AnomalousEvent(a) => ErrorModel::AnomalousEvent(*a),
        }
    }
}

/// The error a failed command with this status code and diagnostic text
/// surfaces to the caller.
pub open spec fn error_for(code: FfiErrorCode, diagnostic: Seq<char>) -> ErrorModel
    recommends
        code != FfiErrorCode::Success,
{
    match code {
        FfiErrorCode::Success => ErrorModel::UnknownError(diagnostic),
        FfiErrorCode::NotInitialized => ErrorModel::NotInitialized(diagnostic),
        FfiErrorCode::InvalidParameter => ErrorModel::InvalidParameter(diagnostic),
        FfiErrorCode::OperationFailed => ErrorModel::OperationFailed(diagnostic),
        FfiErrorCode::DeviceNotFound => ErrorModel::DeviceNotFound(diagnostic),
        FfiErrorCode::ConnectionFailed => ErrorModel::ConnectionFailed(diagnostic),
        FfiErrorCode::AudioInitFailed => ErrorModel::AudioInitFailed(diagnostic),
        FfiErrorCode::UnknownError => ErrorModel::UnknownError(diagnostic),
    }
}

impl AppError {
    /// Map a non-success status code and the last diagnostic text to the
    /// matching typed error.
    pub fn from_status(code: FfiErrorCode, diagnostic: String) -> (r: AppError)
        requires
            code != FfiErrorCode::Success,
        ensures
            r@ == error_for(code, diagnostic@),
    {
        match code {
            FfiErrorCode::Success => AppError::UnknownError(diagnostic),
            FfiErrorCode::NotInitialized => AppError::NotInitialized(diagnostic),
            FfiErrorCode::InvalidParameter => AppError::InvalidParameter(diagnostic),
            FfiErrorCode::OperationFailed => AppError::OperationFailed(diagnostic),
            FfiErrorCode::DeviceNotFound => AppError::DeviceNotFound(diagnostic),
            FfiErrorCode::ConnectionFailed => AppError::ConnectionFailed(diagnostic),
            FfiErrorCode::AudioInitFailed => AppError::AudioInitFailed(diagnostic),
            FfiErrorCode::UnknownError => AppError::UnknownError(diagnostic),
        }
    }
}

/// User-visible text for an error value.
pub open spec fn message_of(e: ErrorModel) -> Seq<char> {
    match e {
        ErrorModel::NotInitialized(m) => "Not initialized: "@ + m,
        ErrorModel::InvalidParameter(m) => "Invalid parameter: "@ + m,
        ErrorModel::OperationFailed(m) => "Operation failed: "@ + m,
        ErrorModel::DeviceNotFound(m) => "Device not found: "@ + m,
        ErrorModel::ConnectionFailed(m) => "Connection failed: "@ + m,
        ErrorModel::AudioInitFailed(m) => "Audio init failed: "@ + m,
        ErrorModel::UnknownError(m) => "Unknown error: "@ + m,
        ErrorModel::BridgeDisconnected => "Event channel disconnected"@,
        ErrorModel::AnomalousEvent(a) => "Anomalous event for unknown address "@ + hex_rep(
            a as int,
        ),
    }
}

impl AppError {
    /// Render the error for display.
    pub fn message(&self) -> (r: String)
        ensures
            r@ == message_of(self@),
    {
        match self {
            AppError::NotInitialized(m) => {
                let mut s = "Not initialized: ".to_owned();
                s.append(m.as_str());
                s
            },
            AppError::InvalidParameter(m) => {
                let mut s = "Invalid parameter: ".to_owned();
                s.append(m.as_str());
                s
            },
            AppError::OperationFailed(m) => {
                let mut s = "Operation failed: ".to_owned();
                s.append(m.as_str());
                s
            },
            AppError::DeviceNotFound(m) => {
                let mut s = "Device not found: ".to_owned();
                s.append(m.as_str());
                s
            },
            AppError::ConnectionFailed(m) => {
                let mut s = "Connection failed: ".to_owned();
                s.append(m.as_str());
                s
            },
            AppError::AudioInitFailed(m) => {
                let mut s = "Audio init failed: ".to_owned();
                s.append(m.as_str());
                s
            },
            AppError::UnknownError(m) => {
                let mut s = "Unknown error: ".to_owned();
                s.append(m.as_str());
                s
            },
            AppError::BridgeDisconnected => "Event channel disconnected".to_owned(),
            AppError::AnomalousEvent(a) => {
                let mut s = "Anomalous event for unknown address ".to_owned();
                s.append(address_hex(*a).as_str());
                s
            },
        }
    }
}

} // verus!
