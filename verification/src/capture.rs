//! The pulse-capture state machine: one step per poll of the line.
//!
//! A measurement starts after the wake/reset sequence has put the line under
//! the sensor's control. The machine first waits out an initial high level,
//! then measures 41 (low, high) pulse pairs as polling-iteration counts. No
//! level may persist past the iteration ceiling: the machine then fails with
//! a timeout, which bounds the whole measurement. The caller owns the pin
//! exclusively for the whole sequence and feeds every polled level into
//! [`PulseCapture::step`].

use vstd::prelude::*;

use crate::levels::Level;
use crate::pulse::{PulseSample, MAX_COUNT, PULSE_SLOTS};

verus! {

/// Where a capture stands.
#[derive(Debug, Clone, Copy, PartialEq, Eq, Structural)]
pub enum CapturePhase {
    /// Waiting for the initial high level to end.
    AwaitStart,
    /// Measuring the duration of one slot.
    Measure,
    /// All slots measured; the sample can be taken.
    Complete,
    /// Some level persisted past the iteration ceiling.
    TimedOut,
}

/// What one poll did to the capture.
#[derive(Debug, Clone, Copy, PartialEq, Eq, Structural)]
pub enum CaptureStep {
    /// The capture wants the next polled level.
    Pending,
    /// The pulse train is fully measured.
    Complete,
    /// The current level persisted past the iteration ceiling.
    TimedOut,
}

/// The level a slot measures: even slots count a low level, odd slots a
/// high level.
pub open spec fn spec_slot_level(i: int) -> Level {
    if i % 2 == 0 {
        Level::Low
    } else {
        Level::High
    }
}

/// An in-progress measurement of one pulse train.
pub struct PulseCapture {
    counts: Vec<u32>,
    slot: usize,
    start_count: u32,
    phase: CapturePhase,
}

impl PulseCapture {
    /// The phase the capture is in.
    pub closed spec fn phase(&self) -> CapturePhase {
        self.phase
    }

    /// The durations recorded so far, one per slot.
    pub closed spec fn counts(&self) -> Seq<u32> {
        self.counts@
    }

    /// The slot being measured.
    pub closed spec fn slot(&self) -> int {
        self.slot as int
    }

    /// Iterations spent waiting out the initial high level.
    pub closed spec fn start_count(&self) -> u32 {
        self.start_count
    }

    /// The capture still wants input.
    pub open spec fn live(&self) -> bool {
        self.phase() is AwaitStart || self.phase() is Measure
    }

    /// Structural soundness: a full set of slots, every count within the
    /// ceiling, and a valid slot index while measuring.
    pub open spec fn wf(&self) -> bool {
        &&& self.counts().len() == PULSE_SLOTS
        &&& forall|i: int| 0 <= i < self.counts().len() ==> self.counts()[i] <= MAX_COUNT
        &&& self.start_count() <= MAX_COUNT
        &&& self.phase() is Measure ==> 0 <= self.slot() < PULSE_SLOTS
    }

    /// A fresh capture: waiting for the initial high level, nothing counted.
    pub fn new() -> (c: PulseCapture)
        ensures
            c.wf(),
            c.phase() is AwaitStart,
            c.start_count() == 0,
            c.counts().len() == PULSE_SLOTS,
            forall|i: int| 0 <= i < c.counts().len() ==> c.counts()[i] == 0,
    {
        let mut counts: Vec<u32> = Vec::new();
        let mut i: usize = 0;
        while i < PULSE_SLOTS
            invariant
                counts@.len() == i,
                i <= PULSE_SLOTS,
                forall|j: int| 0 <= j < i ==> counts@[j] == 0,
            decreases PULSE_SLOTS - i,
        {
            counts.push(0);
            i += 1;
        }
        PulseCapture { counts, slot: 0, start_count: 0, phase: CapturePhase::AwaitStart }
    }

    /// Feed one polled level into the capture.
    ///
    /// The full transition relation is [`spec_capture_step`]; in particular
    /// a level that would push any iteration count past `MAX_COUNT` yields
    /// `TimedOut`, so a stuck line is bounded by the ceiling, never waited
    /// out indefinitely.
    pub fn step(&mut self, level: Level) -> (r: CaptureStep)
        requires
            old(self).wf(),
            old(self).live(),
        ensures
            final(self).wf(),
            spec_capture_step(*old(self), level, *final(self), r),
            (r is Pending) == final(self).live(),
            (r is Complete) == (final(self).phase() is Complete),
            (r is TimedOut) == (final(self).phase() is TimedOut),
    {
        match self.phase {
            CapturePhase::AwaitStart => {
                if matches!(level, Level::High) {
                    if self.start_count >= MAX_COUNT {
                        self.phase = CapturePhase::TimedOut;
                        CaptureStep::TimedOut
                    } else {
                        self.start_count = self.start_count + 1;
                        CaptureStep::Pending
                    }
                } else {
                    self.phase = CapturePhase::Measure;
                    self.slot = 0;
                    CaptureStep::Pending
                }
            },
            CapturePhase::Measure => {
                let expected = if self.slot % 2 == 0 {
                    Level::Low
                } else {
                    Level::High
                };
                if matches!(level, Level::High) == matches!(expected, Level::High) {
                    let current = self.counts[self.slot];
                    if current >= MAX_COUNT {
                        self.phase = CapturePhase::TimedOut;
                        CaptureStep::TimedOut
                    } else {
                        let bumped = current + 1;
                        self.counts[self.slot] = bumped;
                        CaptureStep::Pending
                    }
                } else {
                    if self.slot + 1 == PULSE_SLOTS {
                        self.slot = self.slot + 1;
                        self.phase = CapturePhase::Complete;
                        CaptureStep::Complete
                    } else {
                        self.slot = self.slot + 1;
                        CaptureStep::Pending
                    }
                }
            },
            CapturePhase::Complete => CaptureStep::Complete,
            CapturePhase::TimedOut => CaptureStep::TimedOut,
        }
    }

    /// Take the measured pulse train out of a completed capture.
    pub fn into_sample(self) -> (s: PulseSample)
        requires
            self.wf(),
            self.phase() is Complete,
        ensures
            s.wf(),
            s@ == self.counts(),
    {
        PulseSample::from_counts(self.counts)
    }
}

/// The transition relation of one capture step: exactly how `post` and the
/// step result follow from `pre` and the polled level.
pub open spec fn spec_capture_step(
    pre: PulseCapture,
    level: Level,
    post: PulseCapture,
    r: CaptureStep,
) -> bool {
    if pre.phase() is AwaitStart {
        if level is High {
            if pre.start_count() >= MAX_COUNT {
                &&& r is TimedOut
                &&& post.phase() is TimedOut
                &&& post.counts() == pre.counts()
                &&& post.start_count() == pre.start_count()
                &&& post.slot() == pre.slot()
            } else {
                &&& r is Pending
                &&& post.phase() is AwaitStart
                &&& post.counts() == pre.counts()
                &&& post.start_count() == pre.start_count() + 1
                &&& post.slot() == pre.slot()
            }
        } else {
            &&& r is Pending
            &&& post.phase() is Measure
            &&& post.slot() == 0
            &&& post.counts() == pre.counts()
            &&& post.start_count() == pre.start_count()
        }
    } else if pre.phase() is Measure {
        let s = pre.slot();
        if level == spec_slot_level(s) {
            if pre.counts()[s] >= MAX_COUNT {
                &&& r is TimedOut
                &&& post.phase() is TimedOut
                &&& post.counts() == pre.counts()
                &&& post.slot() == s
                &&& post.start_count() == pre.start_count()
            } else {
                &&& r is Pending
                &&& post.phase() is Measure
                &&& post.slot() == s
                &&& post.counts() == pre.counts().update(s, (pre.counts()[s] + 1) as u32)
                &&& post.start_count() == pre.start_count()
            }
        } else {
            if s + 1 == PULSE_SLOTS {
                &&& r is Complete
                &&& post.phase() is Complete
                &&& post.counts() == pre.counts()
                &&& post.slot() == s + 1
                &&& post.start_count() == pre.start_count()
            } else {
                &&& r is Pending
                &&& post.phase() is Measure
                &&& post.slot() == s + 1
                &&& post.counts() == pre.counts()
                &&& post.start_count() == pre.start_count()
            }
        }
    } else {
        false
    }
}

/// Steps left before a capture fed this level forever must finish or time
/// out.
pub open spec fn spec_poll_budget(c: PulseCapture, level: Level) -> int {
    if c.phase() is AwaitStart {
        if level is High {
            MAX_COUNT - c.start_count() + 1
        } else {
            1 + (MAX_COUNT - c.counts()[0] + 1)
        }
    } else if c.phase() is Measure {
        if level == spec_slot_level(c.slot()) {
            MAX_COUNT - c.counts()[c.slot()] + 1
        } else if c.slot() + 1 == PULSE_SLOTS {
            1
        } else {
            1 + (MAX_COUNT - c.counts()[c.slot() + 1] + 1)
        }
    } else {
        0
    }
}

/// A level held at the line makes bounded progress: every step of a live,
/// well-formed capture either ends the capture (complete or timed out) or
/// strictly shrinks a budget that never exceeds `MAX_COUNT + 2`. Holding
/// any level therefore forces an answer within `MAX_COUNT + 2` polls.
pub proof fn lemma_capture_progress(
    pre: PulseCapture,
    level: Level,
    post: PulseCapture,
    r: CaptureStep,
)
    requires
        pre.wf(),
        pre.live(),
        spec_capture_step(pre, level, post, r),
    ensures
        0 < spec_poll_budget(pre, level) <= MAX_COUNT + 2,
        post.wf(),
        r is Pending ==> post.live() && 0 <= spec_poll_budget(post, level) < spec_poll_budget(
            pre,
            level,
        ),
{
}

/// A level held at the line forces an answer within `MAX_COUNT + 2` polls:
/// any chain of steps under one constant level in which every step asks for
/// more input is shorter than the initial budget, hence shorter than
/// `MAX_COUNT + 2`.
pub proof fn lemma_capture_answers_within_bound(
    states: Seq<PulseCapture>,
    level: Level,
    results: Seq<CaptureStep>,
)
    requires
        states.len() == results.len() + 1,
        states[0].wf(),
        states[0].live(),
        forall|i: int|
            0 <= i < results.len() ==> spec_capture_step(states[i], level, states[i + 1], results[i]),
        forall|i: int| 0 <= i < results.len() ==> results[i] is Pending,
    ensures
        results.len() < spec_poll_budget(states[0], level) <= MAX_COUNT + 2,
    decreases results.len(),
{
    lemma_capture_budget_bound(states[0], level);
    if results.len() > 0 {
        lemma_capture_progress(states[0], level, states[1], results[0]);
        let tail_states = states.drop_first();
        let tail_results = results.drop_first();
        assert forall|i: int| 0 <= i < tail_results.len() implies spec_capture_step(
            tail_states[i],
            level,
            tail_states[i + 1],
            tail_results[i],
        ) by {
            assert(spec_capture_step(states[i + 1], level, states[i + 2], results[i + 1]));
        }
        assert forall|i: int| 0 <= i < tail_results.len() implies tail_results[i] is Pending by {
            assert(results[i + 1] is Pending);
        }
        lemma_capture_answers_within_bound(tail_states, level, tail_results);
        assert(spec_poll_budget(states[1], level) < spec_poll_budget(states[0], level));
    }
}

/// The budget of any live, well-formed capture is positive and at most
/// `MAX_COUNT + 2`.
proof fn lemma_capture_budget_bound(c: PulseCapture, level: Level)
    requires
        c.wf(),
        c.live(),
    ensures
        0 < spec_poll_budget(c, level) <= MAX_COUNT + 2,
{
}

} // verus!
