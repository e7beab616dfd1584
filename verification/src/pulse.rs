//! The pulse train a single transmission produces: 82 measured durations,
//! one low and one high duration for each of the 41 pulse pairs (an initial
//! handshake pair followed by 40 data bits).

use vstd::prelude::*;

verus! {

/// Ceiling on the polling iterations spent waiting out one level. A level
/// held longer than this aborts the read with a timeout, which bounds the
/// worst-case latency of a whole measurement.
pub const MAX_COUNT: u32 = 32000;

/// Pulse pairs in one transmission: one handshake pair plus 40 data bits.
pub const DHT_PULSES: usize = 41;

/// Recorded durations: a low and a high duration for every pulse pair.
pub const PULSE_SLOTS: usize = 2 * DHT_PULSES;

/// An ordered sequence of 82 polling-iteration counts, scoped to one decode
/// attempt. Durations are opaque counts, not calibrated times: decoding is
/// threshold-relative, so only their ratios matter.
pub struct PulseSample {
    durations: Vec<u32>,
}

impl View for PulseSample {
    type V = Seq<u32>;

    closed spec fn view(&self) -> Seq<u32> {
        self.durations@
    }
}

impl PulseSample {
    /// Every sample holds exactly one duration per slot, and none of them
    /// exceeds the wait ceiling: a longer wait would have aborted the
    /// measurement instead of recording the slot.
    pub open spec fn wf(&self) -> bool {
        &&& self@.len() == PULSE_SLOTS
        &&& forall|i: int| 0 <= i < self@.len() ==> self@[i] <= MAX_COUNT
    }

    /// Wrap raw durations, rejecting anything that a measurement could not
    /// have produced.
    pub fn from_durations(durations: Vec<u32>) -> (r: Option<PulseSample>)
        ensures
            match r {
                Some(s) => s.wf() && s@ == durations@,
                None => !(durations@.len() == PULSE_SLOTS && forall|i: int|
                    0 <= i < durations@.len() ==> durations@[i] <= MAX_COUNT),
            },
    {
        if durations.len() != PULSE_SLOTS {
            return None;
        }
        let mut i: usize = 0;
        while i < durations.len()
            invariant
                i <= durations@.len(),
                forall|j: int| 0 <= j < i ==> durations@[j] <= MAX_COUNT,
            decreases durations@.len() - i,
        {
            if durations[i] > MAX_COUNT {
                return None;
            }
            i += 1;
        }
        Some(PulseSample { durations })
    }

    /// Wrap durations that a verified measurement already bounded.
    pub(crate) fn from_counts(durations: Vec<u32>) -> (s: PulseSample)
        requires
            durations@.len() == PULSE_SLOTS,
            forall|i: int| 0 <= i < durations@.len() ==> durations@[i] <= MAX_COUNT,
        ensures
            s.wf(),
            s@ == durations@,
    {
        PulseSample { durations }
    }

    /// The duration recorded for one slot.
    pub fn get(&self, i: usize) -> (d: u32)
        requires
            i < self@.len(),
        ensures
            d == self@[i as int],
    {
        self.durations[i]
    }

    /// The number of slots; always `PULSE_SLOTS`.
    pub fn len(&self) -> (n: usize)
        ensures
            n == self@.len(),
    {
        self.durations.len()
    }
}

} // verus!
