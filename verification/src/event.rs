//! Typed events describing observable state transitions, produced by the
//! bridge and the session controller and consumed by the device directory.

use vstd::prelude::*;
use crate::device::{BluetoothDevice, DeviceModel};

verus! {

/// One observable transition. An event is produced once, never mutated, and
/// consumed exactly once by the directory.
#[derive(Debug)]
pub enum Event {
    /// A device-found notification, already decoded into a record snapshot.
    DeviceObserved(BluetoothDevice),
    /// Discovery started.
    ScanStarted,
    /// Discovery stopped.
    ScanStopped,
    /// The device with this address is now connected.
    Connected(u64),
    /// The device with this address is now disconnected.
    Disconnected(u64),
    /// A diagnostic message from the native core's error path.
    Error(String),
}

/// Mathematical value of an event.
#[verifier::ext_equal]
pub ghost enum EventModel {
    DeviceObserved(DeviceModel),
    ScanStarted,
    ScanStopped,
    Connected(u64),
    Disconnected(u64),
    Error(Seq<char>),
}

impl View for Event {
    type V = EventModel;

    open spec fn view(&self) -> EventModel {
        match self {
            Event::DeviceObserved(d) => EventModel::DeviceObserved(d@),
            Event::ScanStarted => EventModel::ScanStarted,
            Event::ScanStopped => EventModel::ScanStopped,
            Event::Connected(a) => EventModel::Connected(*a),
            Event::Disconnected(a) => EventModel::Disconnected(*a),
            Event::Error(m) => EventModel::Error(m@),
        }
    }
}

impl Clone for Event {
    /// A clone carries exactly the same model as the value it copies.
    fn clone(&self) -> (r: Self)
        ensures
            r@ == self@,
    {
        match self {
            Event::DeviceObserved(d) => Event::DeviceObserved(d.clone()),
            Event::ScanStarted => Event::ScanStarted,
            Event::ScanStopped => Event::ScanStopped,
            Event::Connected(a) => Event::Connected(*a),
            Event::Disconnected(a) => Event::Disconnected(*a),
            Event::Error(m) => Event::Error(m.clone()),
        }
    }
}

} // verus!
