//! The event channel between the bridge and the consumer.
//!
//! A queue of pending events in emission order. Emission appends and never
//! blocks or fails, so the callback side is never held up; the consumer
//! drains all pending events at once and applies them in order. Sharing the
//! queue between the callback thread and the consumer (a short-held,
//! panic-safe guard) is the embedding program's concern, not this type's.

use vstd::prelude::*;
use crate::event::{Event, EventModel};

verus! {

/// FIFO queue of typed events, viewed as the sequence of pending event
/// models in emission order.
pub struct EventQueue {
    events: Vec<Event>,
}

impl View for EventQueue {
    type V = Seq<EventModel>;

    closed spec fn view(&self) -> Seq<EventModel> {
        self.events@.map_values(|e: Event| e@)
    }
}

impl EventQueue {
    /// An empty queue.
    pub fn new() -> (r: EventQueue)
        ensures
            r@ == Seq::<EventModel>::empty(),
    {
        let q = EventQueue { events: Vec::new() };
        proof {
            assert(q@ =~= Seq::<EventModel>::empty());
        }
        q
    }

    /// Append one event. Never blocks and never fails: the queue is
    /// unbounded, so emission cannot exert back-pressure on the native
    /// callback thread.
    pub fn emit(&mut self, event: Event)
        ensures
            final(self)@ == old(self)@.push(event@),
    {
        let ghost prior = self.events@;
        self.events.push(event);
        proof {
            assert(self.events@ == prior.push(event));
            assert(self@ =~= old(self)@.push(event@));
        }
    }

    /// How many events are pending.
    pub fn len(&self) -> (r: usize)
        ensures
            r == self@.len(),
    {
        self.events.len()
    }

    /// Whether no event is pending.
    pub fn is_empty(&self) -> (r: bool)
        ensures
            r == (self@.len() == 0),
    {
        self.events.is_empty()
    }

    /// Take every pending event, in emission order, leaving the queue empty.
    /// This is the consumer's non-blocking "drain all currently available
    /// events" read.
    pub fn drain(&mut self) -> (r: Vec<Event>)
        ensures
            final(self)@ == Seq::<EventModel>::empty(),
            r@.map_values(|e: Event| e@) == old(self)@,
    {
        let mut out: Vec<Event> = Vec::new();
        core::mem::swap(&mut self.events, &mut out);
        proof {
            assert(self@ =~= Seq::<EventModel>::empty());
        }
        out
    }
}

} // verus!
