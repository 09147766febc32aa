//! The consumer side of the channel: fold a drained batch of events into the
//! directory and the session, in arrival order, collecting the anomalies the
//! batch surfaced instead of failing on them.

use vstd::prelude::*;
use crate::device::DeviceModel;
use crate::directory::{accepts, apply_all, link_address, DeviceDirectory};
use crate::error::{AppError, ErrorModel};
use crate::event::{Event, EventModel};
use crate::session::SessionController;

verus! {

/// The scanning flag after a batch of events: the last scan event wins, and
/// a batch without one leaves the flag alone.
pub open spec fn scan_flag(b: bool, es: Seq<EventModel>) -> bool
    decreases es.len(),
{
    if es.len() == 0 {
        b
    } else if es.last() == EventModel::ScanStarted {
        true
    } else if es.last() == EventModel::ScanStopped {
        false
    } else {
        scan_flag(b, es.drop_last())
    }
}

/// The addresses of the anomalous link events in a batch, in arrival order:
/// those whose connect or disconnect found no record at the point it was
/// applied.
pub open spec fn anomalies_of(m: Map<u64, DeviceModel>, es: Seq<EventModel>) -> Seq<u64>
    decreases es.len(),
{
    if es.len() == 0 {
        Seq::empty()
    } else {
        let rest = anomalies_of(m, es.drop_last());
        if accepts(apply_all(m, es.drop_last()), es.last()) {
            rest
        } else {
            rest.push(link_address(es.last()))
        }
    }
}

/// Apply a drained batch of events, first event first. The directory ends
/// exactly at the fold of the batch over its transition; the session's
/// scanning flag follows the scan events; anomalous link events are skipped
/// and returned for reporting, never escalated.
pub fn apply_events(
    directory: &mut DeviceDirectory,
    session: &mut SessionController,
    events: Vec<Event>,
) -> (anomalies: Vec<AppError>)
    requires
        old(directory).wf(),
    ensures
        final(directory).wf(),
        final(directory)@ == apply_all(old(directory)@, events@.map_values(|e: Event| e@)),
        final(session).scanning() == scan_flag(
            old(session).scanning(),
            events@.map_values(|e: Event| e@),
        ),
        final(session).permission_granted() == old(session).permission_granted(),
        anomalies@.map_values(|a: AppError| a@) == anomalies_of(
            old(directory)@,
            events@.map_values(|e: Event| e@),
        ).map_values(|a: u64| ErrorModel::AnomalousEvent(a)),
{
    let ghost es = events@.map_values(|e: Event| e@);
    let ghost m0 = old(directory)@;
    let ghost b0 = old(session).scanning();
    let mut anomalies: Vec<AppError> = Vec::new();
    let mut i: usize = 0;
    while i < events.len()
        invariant
            directory.wf(),
            i <= events.len(),
            es == events@.map_values(|e: Event| e@),
            directory@ == apply_all(m0, es.take(i as int)),
            session.scanning() == scan_flag(b0, es.take(i as int)),
            session.permission_granted() == old(session).permission_granted(),
            anomalies@.len() == anomalies_of(m0, es.take(i as int)).len(),
            forall|j: int| 0 <= j < anomalies@.len() ==> anomalies@[j]@
                == ErrorModel::AnomalousEvent(anomalies_of(m0, es.take(i as int))[j]),
        decreases events.len() - i,
    {
        let ghost pre_dir = directory@;
        let event = events[i].clone();
        proof {
            assert(event@ == es[i as int]);
        }
        session.observe(&event);
        let outcome = directory.apply(event);
        match outcome {
            Ok(()) => {},
            Err(e) => {
                anomalies.push(e);
            },
        }
        proof {
            let t = es.take(i + 1);
            assert(t.drop_last() =~= es.take(i as int));
            assert(t.last() == es[i as int]);
            assert(apply_all(m0, t.drop_last()) == pre_dir);
        }
        i += 1;
    }
    proof {
        assert(es.take(events.len() as int) =~= es);
        assert(anomalies@.map_values(|a: AppError| a@) =~= anomalies_of(m0, es).map_values(
            |a: u64| ErrorModel::AnomalousEvent(a),
        ));
    }
    anomalies
}

} // verus!
