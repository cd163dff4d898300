//! The bounded event queue between the two workers.
//!
//! The queue is the system's only backpressure point: it preserves
//! submission order, never drops or reorders an event, and refuses a push
//! only while it holds its full capacity.  A producer facing a refusal must
//! wait for the consumer, never discard the event.

use vstd::prelude::*;
use crate::data::RelayEvent;

verus! {

/// How many undelivered events the queue holds before the producer blocks.
pub const EVENT_QUEUE_CAPACITY: usize = 100;

/// A bounded first-in-first-out buffer of relay events.
pub struct EventQueue {
    buf: Vec<RelayEvent>,
}

impl EventQueue {
    /// The pending events, oldest first.
    pub closed spec fn view(&self) -> Seq<RelayEvent> {
        self.buf@
    }

    /// The queue never holds more than its capacity.
    pub closed spec fn well_formed(&self) -> bool {
        self.buf@.len() <= EVENT_QUEUE_CAPACITY
    }

    /// An empty queue.
    pub fn new() -> (q: EventQueue)
        ensures
            q@ == Seq::<RelayEvent>::empty(),
            q.well_formed(),
    {
        EventQueue { buf: Vec::new() }
    }

    /// How many events are pending.
    pub fn len(&self) -> (n: usize)
        ensures
            n == self@.len(),
    {
        self.buf.len()
    }

    /// Whether nothing is pending.
    pub fn is_empty(&self) -> (r: bool)
        ensures
            r == (self@.len() == 0),
    {
        self.buf.len() == 0
    }

    /// Whether the queue is at capacity, so that a push would be refused.
    pub fn is_full(&self) -> (r: bool)
        ensures
            r == (self@.len() >= EVENT_QUEUE_CAPACITY),
    {
        self.buf.len() >= EVENT_QUEUE_CAPACITY
    }

    /// Appends an event unless the queue is full.  A full queue is left
    /// unchanged and the event stays with the caller: nothing is ever
    /// dropped.
    pub fn try_push(&mut self, e: RelayEvent) -> (accepted: bool)
        requires
            old(self).well_formed(),
        ensures
            final(self).well_formed(),
            accepted == (old(self)@.len() < EVENT_QUEUE_CAPACITY),
            accepted ==> final(self)@ == old(self)@.push(e),
            !accepted ==> final(self)@ == old(self)@,
    {
        if self.buf.len() < EVENT_QUEUE_CAPACITY {
            self.buf.push(e);
            true
        } else {
            false
        }
    }

    /// Removes and returns the oldest pending event, if any.
    pub fn pop(&mut self) -> (r: Option<RelayEvent>)
        requires
            old(self).well_formed(),
        ensures
            final(self).well_formed(),
            old(self)@.len() == 0 ==> r is None && final(self)@ == old(self)@,
            old(self)@.len() > 0 ==> r == Some(old(self)@.first()) && final(self)@ == old(
                self,
            )@.skip(1),
    {
        if self.buf.len() == 0 {
            None
        } else {
            let e = self.buf.remove(0);
            assert(self.buf@ =~= old(self)@.skip(1));
            Some(e)
        }
    }
}

} // verus!
