//! Freshness filtering and dispatch of remote commands.
//!
//! A command is accepted only inside a bounded window around "now": it must
//! not be dated in the future (clock skew) and must not be older than the
//! freshness window (stale or replayed). Unknown command codes are ignored,
//! never treated as a fatal error. The transport that delivers commands
//! stays outside the library.

use vstd::prelude::*;

use crate::clock::now_epoch_millis;

verus! {

/// How long after it was issued a command is still acted on, in seconds.
pub const FRESHNESS_WINDOW_SECONDS: u64 = 15;

/// An inbound remote command: when it was issued and what it asks for.
#[derive(Debug, Clone, Copy, PartialEq, Eq, Structural)]
pub struct CommandRequest {
    /// Seconds since the Unix epoch at which the sender issued the command.
    pub issued_at_epoch_seconds: u64,
    /// The requested operation; zero is refresh, one is status.
    pub command_code: i32,
}

/// The outcome of evaluating a command against the current time.
#[derive(Debug, Clone, Copy, PartialEq, Eq, Structural)]
pub enum CommandDecision {
    /// Re-read the sensors and force an update.
    Refresh,
    /// Report the device online with current values.
    Status,
    /// Dated after "now": clock-skewed, rejected.
    RejectedFuture,
    /// Older than the freshness window: stale or replayed, rejected.
    RejectedStale,
    /// Fresh, but the code means nothing; ignored, not an error.
    IgnoredUnknown,
}

/// A command is fresh when it was issued at or before `now` and at most the
/// freshness window ago.
pub open spec fn spec_command_fresh(issued_at: u64, now: u64) -> bool {
    issued_at <= now && now - issued_at <= FRESHNESS_WINDOW_SECONDS
}

/// The decision for a request at a given time: freshness is checked first,
/// then the code is dispatched.
pub open spec fn spec_evaluate_command(req: CommandRequest, now: u64) -> CommandDecision {
    if req.issued_at_epoch_seconds > now {
        CommandDecision::RejectedFuture
    } else if now - req.issued_at_epoch_seconds > FRESHNESS_WINDOW_SECONDS {
        CommandDecision::RejectedStale
    } else if req.command_code == 0 {
        CommandDecision::Refresh
    } else if req.command_code == 1 {
        CommandDecision::Status
    } else {
        CommandDecision::IgnoredUnknown
    }
}

/// Evaluate a command against the given current time.
///
/// The command is acted on (refresh or status) if and only if it is fresh
/// and its code is known; each rejection states its reason.
pub fn evaluate_command(req: &CommandRequest, now_epoch_seconds: u64) -> (d: CommandDecision)
    ensures
        d == spec_evaluate_command(*req, now_epoch_seconds),
        (d is Refresh || d is Status || d is IgnoredUnknown) <==> spec_command_fresh(
            req.issued_at_epoch_seconds,
            now_epoch_seconds,
        ),
{
    if req.issued_at_epoch_seconds > now_epoch_seconds {
        CommandDecision::RejectedFuture
    } else if now_epoch_seconds - req.issued_at_epoch_seconds > FRESHNESS_WINDOW_SECONDS {
        CommandDecision::RejectedStale
    } else if req.command_code == 0 {
        CommandDecision::Refresh
    } else if req.command_code == 1 {
        CommandDecision::Status
    } else {
        CommandDecision::IgnoredUnknown
    }
}

/// Evaluate a command against the wall clock. The clock is an outside fact,
/// so all that can be said is that the decision is the one some current
/// time yields.
pub fn evaluate_command_now(req: &CommandRequest) -> (d: CommandDecision)
    ensures
        exists|now: u64| d == spec_evaluate_command(*req, now),
{
    let stamp = now_epoch_millis();
    let now_seconds: u64 = if stamp < 0 {
        0
    } else {
        (stamp as u64) / 1000
    };
    let d = evaluate_command(req, now_seconds);
    proof {
        assert(d == spec_evaluate_command(*req, now_seconds));
    }
    d
}

} // verus!
