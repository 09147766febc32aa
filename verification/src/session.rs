//! The session controller: the typed command surface over the native radio
//! core, and the single source of truth for the scanning and permission
//! flags.
//!
//! The native calls themselves (foreign functions, callback installation)
//! happen outside this crate; each command's caller performs the call and
//! hands the returned status code here, together with the native core's last
//! diagnostic text. These methods map the status to a typed result, update
//! session state, and synthesize the local events that commands without an
//! asynchronous confirmation owe the consumer.

use vstd::prelude::*;
use crate::channel::EventQueue;
use crate::error::{error_for, AppError};
use crate::event::{Event, EventModel};
use crate::status::FfiErrorCode;

verus! {

/// Session state: whether discovery is running and whether the radio
/// permission check passed. Transitions only via explicit command results
/// and via the scan events, which are the authoritative source of truth for
/// `scanning`.
pub struct SessionController {
    scanning: bool,
    permission_granted: bool,
}

impl SessionController {
    /// Whether discovery is running, as this controller knows it.
    pub closed spec fn scanning(&self) -> bool {
        self.scanning
    }

    /// Whether the radio permission check passed, as last recorded.
    pub closed spec fn permission_granted(&self) -> bool {
        self.permission_granted
    }

    /// A fresh session: not scanning, permission not yet granted.
    pub fn new() -> (r: SessionController)
        ensures
            !r.scanning(),
            !r.permission_granted(),
    {
        SessionController { scanning: false, permission_granted: false }
    }

    /// Outcome of the init command. Success or failure, the session stays
    /// usable in a degraded mode: no state changes, and other commands may
    /// still be attempted.
    pub fn initialize_result(&mut self, status: FfiErrorCode, diagnostic: String) -> (r: Result<
        (),
        AppError,
    >)
        ensures
            final(self).scanning() == old(self).scanning(),
            final(self).permission_granted() == old(self).permission_granted(),
            status == FfiErrorCode::Success ==> r is Ok,
            status != FfiErrorCode::Success ==> (r matches Err(e) && e@ == error_for(
                status,
                diagnostic@,
            )),
    {
        match status {
            FfiErrorCode::Success => Ok(()),
            _ => Err(AppError::from_status(status, diagnostic)),
        }
    }

    /// Outcome of the start-scan command. On success the controller emits
    /// `ScanStarted` and records that discovery runs; on failure it returns
    /// the typed error and leaves everything, the queue included, unchanged.
    pub fn start_scan_result(
        &mut self,
        status: FfiErrorCode,
        diagnostic: String,
        queue: &mut EventQueue,
    ) -> (r: Result<(), AppError>)
        ensures
            final(self).permission_granted() == old(self).permission_granted(),
            status == FfiErrorCode::Success ==> (r is Ok && final(self).scanning() && final(queue)@
                == old(queue)@.push(EventModel::ScanStarted)),
            status != FfiErrorCode::Success ==> ((r matches Err(e) && e@ == error_for(
                status,
                diagnostic@,
            )) && final(self).scanning() == old(self).scanning() && final(queue)@ == old(queue)@),
    {
        match status {
            FfiErrorCode::Success => {
                self.scanning = true;
                queue.emit(Event::ScanStarted);
                Ok(())
            },
            _ => Err(AppError::from_status(status, diagnostic)),
        }
    }

    /// Outcome of the stop-scan command, symmetric to start: on success the
    /// controller emits `ScanStopped` and records that discovery stopped.
    /// Stopping does not suppress callbacks the native core already
    /// dispatched; late device observations remain valid events.
    pub fn stop_scan_result(
        &mut self,
        status: FfiErrorCode,
        diagnostic: String,
        queue: &mut EventQueue,
    ) -> (r: Result<(), AppError>)
        ensures
            final(self).permission_granted() == old(self).permission_granted(),
            status == FfiErrorCode::Success ==> (r is Ok && !final(self).scanning()
                && final(queue)@ == old(queue)@.push(EventModel::ScanStopped)),
            status != FfiErrorCode::Success ==> ((r matches Err(e) && e@ == error_for(
                status,
                diagnostic@,
            )) && final(self).scanning() == old(self).scanning() && final(queue)@ == old(queue)@),
    {
        match status {
            FfiErrorCode::Success => {
                self.scanning = false;
                queue.emit(Event::ScanStopped);
                Ok(())
            },
            _ => Err(AppError::from_status(status, diagnostic)),
        }
    }

    /// Outcome of the connect command. The native layer sends no
    /// asynchronous confirmation for connects, so on success the controller
    /// synthesizes the `Connected` event locally; the caller then records
    /// the interaction with the registry collaborator. A distinguished
    /// connection-failed status surfaces as the `ConnectionFailed` variant,
    /// distinct from every generic failure; session state never changes.
    pub fn connect_result(
        &self,
        address: u64,
        status: FfiErrorCode,
        diagnostic: String,
        queue: &mut EventQueue,
    ) -> (r: Result<(), AppError>)
        ensures
            status == FfiErrorCode::Success ==> (r is Ok && final(queue)@ == old(queue)@.push(
                EventModel::Connected(address),
            )),
            status != FfiErrorCode::Success ==> ((r matches Err(e) && e@ == error_for(
                status,
                diagnostic@,
            )) && final(queue)@ == old(queue)@),
    {
        match status {
            FfiErrorCode::Success => {
                queue.emit(Event::Connected(address));
                Ok(())
            },
            _ => Err(AppError::from_status(status, diagnostic)),
        }
    }

    /// Outcome of the disconnect command, symmetric to connect: on success
    /// the controller synthesizes the `Disconnected` event locally.
    pub fn disconnect_result(
        &self,
        address: u64,
        status: FfiErrorCode,
        diagnostic: String,
        queue: &mut EventQueue,
    ) -> (r: Result<(), AppError>)
        ensures
            status == FfiErrorCode::Success ==> (r is Ok && final(queue)@ == old(queue)@.push(
                EventModel::Disconnected(address),
            )),
            status != FfiErrorCode::Success ==> ((r matches Err(e) && e@ == error_for(
                status,
                diagnostic@,
            )) && final(queue)@ == old(queue)@),
    {
        match status {
            FfiErrorCode::Success => {
                queue.emit(Event::Disconnected(address));
                Ok(())
            },
            _ => Err(AppError::from_status(status, diagnostic)),
        }
    }

    /// Record what the native permission query returned. The query itself
    /// mutates nothing and produces no events.
    pub fn record_permission(&mut self, granted: bool)
        ensures
            final(self).permission_granted() == granted,
            final(self).scanning() == old(self).scanning(),
    {
        self.permission_granted = granted;
    }

    /// Pure query: the last recorded permission state.
    pub fn check_permission(&self) -> (r: bool)
        ensures
            r == self.permission_granted(),
    {
        self.permission_granted
    }

    /// Pure query: whether discovery runs.
    pub fn is_scanning(&self) -> (r: bool)
        ensures
            r == self.scanning(),
    {
        self.scanning
    }

    /// Let the scan events drive the scanning flag: they are its
    /// authoritative source of truth. Every other event leaves the session
    /// untouched.
    pub fn observe(&mut self, event: &Event)
        ensures
            final(self).permission_granted() == old(self).permission_granted(),
            event@ == EventModel::ScanStarted ==> final(self).scanning(),
            event@ == EventModel::ScanStopped ==> !final(self).scanning(),
            (event@ != EventModel::ScanStarted && event@ != EventModel::ScanStopped)
                ==> final(self).scanning() == old(self).scanning(),
    {
        match event {
            Event::ScanStarted => {
                self.scanning = true;
            },
            Event::ScanStopped => {
                self.scanning = false;
            },
            _ => {},
        }
    }
}

} // verus!
