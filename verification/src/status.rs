//! Closed set of outcome codes returned by every native radio command.

use vstd::prelude::*;

verus! {

/// Outcome of a native radio command. Every command of the native core
/// returns exactly one of these codes; anything outside the known raw range
/// is treated as `UnknownError`.
#[derive(Debug, Clone, Copy, PartialEq, Eq, Structural)]
pub enum FfiErrorCode {
    Success,
    NotInitialized,
    InvalidParameter,
    OperationFailed,
    DeviceNotFound,
    ConnectionFailed,
    AudioInitFailed,
    UnknownError,
}

/// The raw integer the native core uses for each code.
pub open spec fn raw_of(code: FfiErrorCode) -> u32 {
    match code {
        FfiErrorCode::Success => 0,
        FfiErrorCode::NotInitialized => 1,
        FfiErrorCode::InvalidParameter => 2,
        FfiErrorCode::OperationFailed => 3,
        FfiErrorCode::DeviceNotFound => 4,
        FfiErrorCode::ConnectionFailed => 5,
        FfiErrorCode::AudioInitFailed => 6,
        FfiErrorCode::UnknownError => 255,
    }
}

/// The code a raw integer decodes to: the known values map to their code,
/// everything else to `UnknownError`.
pub open spec fn decode_raw(raw: u32) -> FfiErrorCode {
    if raw == 0 {
        FfiErrorCode::Success
    } else if raw == 1 {
        FfiErrorCode::NotInitialized
    } else if raw == 2 {
        FfiErrorCode::InvalidParameter
    } else if raw == 3 {
        FfiErrorCode::OperationFailed
    } else if raw == 4 {
        FfiErrorCode::DeviceNotFound
    } else if raw == 5 {
        FfiErrorCode::ConnectionFailed
    } else if raw == 6 {
        FfiErrorCode::AudioInitFailed
    } else {
        FfiErrorCode::UnknownError
    }
}

impl FfiErrorCode {
    /// Decode the raw integer carried across the native boundary.
    pub fn from_raw(raw: u32) -> (r: FfiErrorCode)
        ensures
            r == decode_raw(raw),
    {
        match raw {
            0 => FfiErrorCode::Success,
            1 => FfiErrorCode::NotInitialized,
            2 => FfiErrorCode::InvalidParameter,
            3 => FfiErrorCode::OperationFailed,
            4 => FfiErrorCode::DeviceNotFound,
            5 => FfiErrorCode::ConnectionFailed,
            6 => FfiErrorCode::AudioInitFailed,
            _ => FfiErrorCode::UnknownError,
        }
    }

    /// The raw integer for this code.
    pub fn raw(self) -> (r: u32)
        ensures
            r == raw_of(self),
    {
        match self {
            FfiErrorCode::Success => 0,
            FfiErrorCode::NotInitialized => 1,
            FfiErrorCode::InvalidParameter => 2,
            FfiErrorCode::OperationFailed => 3,
            FfiErrorCode::DeviceNotFound => 4,
            FfiErrorCode::ConnectionFailed => 5,
            FfiErrorCode::AudioInitFailed => 6,
            FfiErrorCode::UnknownError => 255,
        }
    }
}

/// Decoding is a left inverse of encoding: every code survives a round trip
/// through its raw integer.
pub proof fn lemma_raw_round_trip(code: FfiErrorCode)
    ensures
        decode_raw(raw_of(code)) == code,
{
}

/// The name of each status code, as diagnostic messages spell it.
pub open spec fn label_of(code: FfiErrorCode) -> Seq<char> {
    match code {
        FfiErrorCode::Success => "Success"@,
        FfiErrorCode::NotInitialized => "NotInitialized"@,
        FfiErrorCode::InvalidParameter => "InvalidParameter"@,
        FfiErrorCode::OperationFailed => "OperationFailed"@,
        FfiErrorCode::DeviceNotFound => "DeviceNotFound"@,
        FfiErrorCode::ConnectionFailed => "ConnectionFailed"@,
        FfiErrorCode::AudioInitFailed => "AudioInitFailed"@,
        FfiErrorCode::UnknownError => "UnknownError"@,
    }
}

impl FfiErrorCode {
    /// The name of this code, for diagnostic messages.
    pub fn label(self) -> (r: String)
        ensures
            r@ == label_of(self),
    {
        match self {
            FfiErrorCode::Success => "Success".to_owned(),
            FfiErrorCode::NotInitialized => "NotInitialized".to_owned(),
            FfiErrorCode::InvalidParameter => "InvalidParameter".to_owned(),
            FfiErrorCode::OperationFailed => "OperationFailed".to_owned(),
            FfiErrorCode::DeviceNotFound => "DeviceNotFound".to_owned(),
            FfiErrorCode::ConnectionFailed => "ConnectionFailed".to_owned(),
            FfiErrorCode::AudioInitFailed => "AudioInitFailed".to_owned(),
            FfiErrorCode::UnknownError => "UnknownError".to_owned(),
        }
    }
}

} // verus!
