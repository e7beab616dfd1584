//! Debounced edge detection: spurious edges arriving within a minimum
//! interval of the last one are suppressed.
//!
//! The window slides: a suppressed edge still advances the stored
//! timestamp, so a chatter burst cannot repeatedly clear a fixed window and
//! sneak an event through. The interrupt path calls [`DebounceFilter::on_edge`]
//! under a lock; it is pure arithmetic and cannot fail.

use vstd::prelude::*;

use crate::clock::now_epoch_millis;

verus! {

/// Whether an edge at `now` is forwarded, given the last stored timestamp
/// and the threshold: only when time moved forward by strictly more than
/// the threshold.
pub open spec fn spec_debounce_forward(last: u64, threshold: u64, now: u64) -> bool {
    now >= last && now - last > threshold
}

/// The stored timestamp after an edge at `now`: it tracks the newest edge
/// but never moves backwards.
pub open spec fn spec_debounce_next(last: u64, now: u64) -> u64 {
    if now >= last {
        now
    } else {
        last
    }
}

/// Suppresses edges that arrive within `threshold_ms` of the previous one.
pub struct DebounceFilter {
    threshold_ms: u64,
    last_event_ms: u64,
}

impl DebounceFilter {
    /// The configured minimum interval between forwarded edges.
    pub closed spec fn threshold_ms(&self) -> u64 {
        self.threshold_ms
    }

    /// The timestamp of the most recent edge seen (forwarded or not).
    pub closed spec fn last_event_ms(&self) -> u64 {
        self.last_event_ms
    }

    /// Read the stored timestamp of the most recent edge.
    pub fn last_event_millis(&self) -> (t: u64)
        ensures
            t == self.last_event_ms(),
    {
        self.last_event_ms
    }

    /// A filter that has last seen an edge at `start_ms`.
    pub fn new(threshold_ms: u64, start_ms: u64) -> (f: DebounceFilter)
        ensures
            f.threshold_ms() == threshold_ms,
            f.last_event_ms() == start_ms,
    {
        DebounceFilter { threshold_ms, last_event_ms: start_ms }
    }

    /// Record an edge observed at `now_ms` and decide whether to forward
    /// it. The stored timestamp only advances, and it always ends at the
    /// newest edge's time, forwarded or not.
    pub fn on_edge(&mut self, now_ms: u64) -> (forward: bool)
        ensures
            forward == spec_debounce_forward(
                old(self).last_event_ms(),
                old(self).threshold_ms(),
                now_ms,
            ),
            final(self).last_event_ms() == spec_debounce_next(old(self).last_event_ms(), now_ms),
            final(self).threshold_ms() == old(self).threshold_ms(),
            final(self).last_event_ms() >= old(self).last_event_ms(),
    {
        let forward = now_ms >= self.last_event_ms && now_ms - self.last_event_ms
            > self.threshold_ms;
        if now_ms >= self.last_event_ms {
            self.last_event_ms = now_ms;
        }
        forward
    }

    /// Record an edge stamped with the current wall clock. The clock is an
    /// outside fact, so all that can be said is that the filter behaved as
    /// [`Self::on_edge`] for some timestamp.
    pub fn on_edge_now(&mut self) -> (forward: bool)
        ensures
            final(self).threshold_ms() == old(self).threshold_ms(),
            final(self).last_event_ms() >= old(self).last_event_ms(),
            exists|now_ms: u64|
                {
                    &&& forward == spec_debounce_forward(
                        old(self).last_event_ms(),
                        old(self).threshold_ms(),
                        now_ms,
                    )
                    &&& final(self).last_event_ms() == spec_debounce_next(
                        old(self).last_event_ms(),
                        now_ms,
                    )
                },
    {
        let stamp = now_epoch_millis();
        let now_ms: u64 = if stamp < 0 {
            0
        } else {
            stamp as u64
        };
        let forward = self.on_edge(now_ms);
        proof {
            assert(forward == spec_debounce_forward(
                old(self).last_event_ms(),
                old(self).threshold_ms(),
                now_ms,
            ) && self.last_event_ms() == spec_debounce_next(old(self).last_event_ms(), now_ms));
        }
        forward
    }
}

/// A chatter burst inside the debounce window: with the filter fresh off a
/// forwarded edge at `t1`, two further edges each within the threshold of
/// their predecessor are both suppressed, yet the stored timestamp still
/// ends at the last edge's time.
pub proof fn lemma_chatter_burst(last0: u64, threshold: u64, t1: u64, t2: u64, t3: u64)
    requires
        t1 >= last0,
        t1 - last0 > threshold,
        t2 >= t1,
        t2 - t1 <= threshold,
        t3 >= t2,
        t3 - t2 <= threshold,
    ensures
        spec_debounce_forward(last0, threshold, t1),
        !spec_debounce_forward(spec_debounce_next(last0, t1), threshold, t2),
        !spec_debounce_forward(
            spec_debounce_next(spec_debounce_next(last0, t1), t2),
            threshold,
            t3,
        ),
        spec_debounce_next(spec_debounce_next(spec_debounce_next(last0, t1), t2), t3) == t3,
{
}

} // verus!
