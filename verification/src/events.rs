//! Edge events and the FIFO queue that hands them from the interrupt path
//! to the worker.
//!
//! The producer side only appends — an O(1), never-blocking operation — and
//! the consumer takes events strictly in arrival order, so events reach the
//! worker in interrupt-fire order.

use vstd::prelude::*;

use crate::levels::Level;

verus! {

/// One detected transition of the monitored line: the level it settled at
/// and when it fired, in milliseconds since the Unix epoch.
#[derive(Debug, Clone, Copy, PartialEq, Eq, Structural)]
pub struct EdgeEvent {
    pub level: Level,
    pub timestamp_ms: u64,
}

/// A first-in, first-out queue of edge events.
pub struct EventQueue {
    items: Vec<EdgeEvent>,
}

impl View for EventQueue {
    type V = Seq<EdgeEvent>;

    closed spec fn view(&self) -> Seq<EdgeEvent> {
        self.items@
    }
}

impl EventQueue {
    /// An empty queue.
    pub fn new() -> (q: EventQueue)
        ensures
            q@ == Seq::<EdgeEvent>::empty(),
    {
        EventQueue { items: Vec::new() }
    }

    /// Events currently waiting.
    pub fn len(&self) -> (n: usize)
        ensures
            n == self@.len(),
    {
        self.items.len()
    }

    /// Whether nothing is waiting.
    pub fn is_empty(&self) -> (e: bool)
        ensures
            e == (self@.len() == 0),
    {
        self.items.len() == 0
    }

    /// Append an event behind everything already queued.
    pub fn enqueue(&mut self, event: EdgeEvent)
        ensures
            final(self)@ == old(self)@.push(event),
    {
        self.items.push(event);
    }

    /// Take the oldest event, if any: the queue is first-in, first-out.
    pub fn dequeue(&mut self) -> (r: Option<EdgeEvent>)
        ensures
            match r {
                Some(event) => {
                    &&& old(self)@.len() > 0
                    &&& event == old(self)@[0]
                    &&& final(self)@ == old(self)@.drop_first()
                },
                None => {
                    &&& old(self)@.len() == 0
                    &&& final(self)@ == old(self)@
                },
            },
    {
        if self.items.len() == 0 {
            None
        } else {
            let event = self.items.remove(0);
            proof {
                assert(self@ =~= old(self)@.drop_first());
            }
            Some(event)
        }
    }
}

} // verus!
