//! Decoding of raw callback payloads into typed events.
//!
//! The native core invokes its callbacks on a thread it owns, with raw and
//! possibly absent data. The unsafe boundary itself (pointer reads,
//! panic containment) lives outside this crate; by the time these functions
//! run, a payload is plain values, with absence expressed as `None`. They
//! never fail: a degenerate payload decodes to a best-effort default.

use vstd::prelude::*;
use vstd::string::StringExecFns;
use crate::device::{BluetoothDevice, DeviceModel};
use crate::event::{Event, EventModel};
use crate::status::{label_of, FfiErrorCode};

verus! {

/// The name a device-found payload decodes to: the given text, or the empty
/// string where the payload carried none.
pub open spec fn decoded_name(name: Option<Seq<char>>) -> Seq<char> {
    match name {
        Some(n) => n,
        None => Seq::empty(),
    }
}

/// The diagnostic text an error callback decodes to: with a message, the
/// status name followed by the message; without one, a rendering of the
/// status name alone.
pub open spec fn error_text(code: FfiErrorCode, message: Option<Seq<char>>) -> Seq<char> {
    match message {
        Some(m) => "Error "@ + label_of(code) + ": "@ + m,
        None => "Error code: "@ + label_of(code),
    }
}

/// Spec-level view of an optional owned string.
pub open spec fn opt_text(message: Option<String>) -> Option<Seq<char>> {
    match message {
        Some(m) => Some(m@),
        None => None,
    }
}

/// Decode a device-found payload into the one event it produces. An absent
/// name decodes to the empty string, never a failure.
pub fn decode_device_found(
    address: u64,
    name: Option<String>,
    connected: bool,
    authenticated: bool,
    rssi: i32,
    cod: u32,
) -> (r: Event)
    ensures
        r@ == EventModel::DeviceObserved(
            DeviceModel {
                address,
                name: decoded_name(opt_text(name)),
                connected,
                authenticated,
                rssi,
                cod,
            },
        ),
{
    let device_name: String = match name {
        Some(n) => n,
        None => String::new(),
    };
    Event::DeviceObserved(
        BluetoothDevice { address, name: device_name, connected, authenticated, rssi, cod },
    )
}

/// Decode an error-callback payload. The first component is the diagnostic
/// text, kept as the last error whatever the code. The second is the event to
/// emit: a `Success` code arriving on the error path is not an error, so it
/// produces none; every other code produces exactly one `Error` event.
pub fn decode_error(code: FfiErrorCode, message: Option<String>) -> (r: (String, Option<Event>))
    ensures
        r.0@ == error_text(code, opt_text(message)),
        code == FfiErrorCode::Success ==> r.1 is None,
        code != FfiErrorCode::Success ==> (r.1 matches Some(e) && e@ == EventModel::Error(
            error_text(code, opt_text(message)),
        )),
{
    let text: String = match message {
        Some(m) => {
            let mut s = "Error ".to_owned();
            s.append(code.label().as_str());
            s.append(": ");
            s.append(m.as_str());
            s
        },
        None => {
            let mut s = "Error code: ".to_owned();
            s.append(code.label().as_str());
            s
        },
    };
    match code {
        FfiErrorCode::Success => (text, None),
        _ => {
            let event = Event::Error(text.clone());
            (text, Some(event))
        },
    }
}

} // verus!
