//! The one clock access the library makes. The current time is an outside
//! fact: callers that depend on it state what holds for every value the
//! clock may return.

use vstd::prelude::*;

verus! {

/// Relies on chrono's `Utc::now` (read via `DateTime::timestamp_millis`):
/// the current time as milliseconds since the Unix epoch. Nothing is
/// promised of the value; two calls may return anything.
#[verifier::external_body]
pub(crate) fn now_epoch_millis() -> i64 {
    chrono::Utc::now().timestamp_millis()
}

} // verus!
