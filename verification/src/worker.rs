//! The worker's decision after each sensor read: what to forward to the
//! notification boundary and what to remember.
//!
//! A door-state change must never be lost: when the read fails, the worker
//! forwards the last known-good reading rather than suppressing the update.
//! An implausible or all-zero-sentinel reading is discarded before it can
//! reach the notification boundary, and is never cached either.

use vstd::prelude::*;

use crate::reading::{
    reading_forwardable, spec_reading_forwardable, Reading, ReadingError,
};

verus! {

/// What the worker does with one read outcome.
#[derive(Debug, Clone, Copy, PartialEq, Eq, Structural)]
pub enum WorkerAction {
    /// Forward this reading, together with the current door state, to the
    /// notification boundary.
    Publish(Reading),
    /// Forward nothing: the reading was implausible or the sentinel.
    Skip,
}

/// The reading the action forwards, per the worker rule: a valid fresh
/// reading is published, an invalid one is skipped, and a failed read
/// publishes the cached reading so the state change still goes out.
pub open spec fn spec_worker_action(
    outcome: Result<Reading, ReadingError>,
    last_good: Reading,
) -> WorkerAction {
    match outcome {
        Ok(fresh) => if spec_reading_forwardable(fresh) {
            WorkerAction::Publish(fresh)
        } else {
            WorkerAction::Skip
        },
        Err(_) => WorkerAction::Publish(last_good),
    }
}

/// The reading cached after the outcome: only a valid fresh reading
/// replaces the last known-good one.
pub open spec fn spec_worker_cache(
    outcome: Result<Reading, ReadingError>,
    last_good: Reading,
) -> Reading {
    match outcome {
        Ok(fresh) => if spec_reading_forwardable(fresh) {
            fresh
        } else {
            last_good
        },
        Err(_) => last_good,
    }
}

/// Decide what one read outcome means for the worker: the action to take
/// and the reading to carry forward as last known-good.
///
/// When the cached reading is valid, everything this step publishes or
/// caches is valid too, so nothing implausible and no sentinel ever reaches
/// the notification boundary.
pub fn worker_step(outcome: &Result<Reading, ReadingError>, last_good: Reading) -> (r: (
    WorkerAction,
    Reading,
))
    ensures
        r.0 == spec_worker_action(*outcome, last_good),
        r.1 == spec_worker_cache(*outcome, last_good),
        spec_reading_forwardable(last_good) ==> {
            &&& (r.0 matches WorkerAction::Publish(p) ==> spec_reading_forwardable(p))
            &&& spec_reading_forwardable(r.1)
        },
{
    match outcome {
        Ok(fresh) => {
            if reading_forwardable(fresh) {
                (WorkerAction::Publish(*fresh), *fresh)
            } else {
                (WorkerAction::Skip, last_good)
            }
        },
        Err(_) => (WorkerAction::Publish(last_good), last_good),
    }
}

} // verus!
