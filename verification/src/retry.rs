//! Retry with exponential backoff for fallible or slow operations.
//!
//! The caller runs each attempt (under its own timeout) and reports
//! failures; the initializer decides whether to sleep and retry or to give
//! up. It never retries past the attempt budget: after the last attempt the
//! decision is terminal exhaustion. A multiplier of one gives a fixed
//! inter-attempt delay, which suits a sensor that must not be re-read
//! faster than a minimum spacing.

use vstd::arithmetic::power::pow;
use vstd::prelude::*;

verus! {

/// Immutable retry configuration.
#[derive(Debug, Clone, Copy, PartialEq, Eq, Structural)]
pub struct RetryPolicy {
    /// Attempts allowed in total; at least one.
    pub max_attempts: u32,
    /// Budget for a single attempt; enforcing it is the caller's job.
    pub per_attempt_timeout_ms: u64,
    /// Delay slept after the first failed attempt.
    pub initial_delay_ms: u64,
    /// Factor applied to the delay after each failure; at least one.
    pub backoff_multiplier: u32,
}

/// A usable policy: at least one attempt, and a multiplier that never
/// shrinks the delay.
pub open spec fn spec_policy_wf(p: RetryPolicy) -> bool {
    p.max_attempts >= 1 && p.backoff_multiplier >= 1
}

/// Multiplication that tops out at the largest representable delay instead
/// of wrapping.
pub open spec fn spec_sat_mul(a: u64, m: u32) -> u64 {
    if a * m > u64::MAX {
        u64::MAX
    } else {
        (a * m) as u64
    }
}

/// The delay slept after failure `k + 1`: the initial delay scaled by the
/// multiplier `k` times, saturating at the largest representable delay.
pub open spec fn spec_delay_after(p: RetryPolicy, k: nat) -> u64
    decreases k,
{
    if k == 0 {
        p.initial_delay_ms
    } else {
        spec_sat_mul(spec_delay_after(p, (k - 1) as nat), p.backoff_multiplier)
    }
}

/// What to do after a failed attempt.
#[derive(Debug, Clone, Copy, PartialEq, Eq, Structural)]
pub enum RetryDecision {
    /// Sleep this long, then try again.
    RetryAfterMs(u64),
    /// The attempt budget is consumed; give up for good.
    Exhausted,
}

/// Tracks attempts and the current backoff delay for one operation.
pub struct RetryingInitializer {
    policy: RetryPolicy,
    failures: u32,
    next_delay_ms: u64,
}

impl RetryingInitializer {
    /// The configuration this initializer was built with.
    pub closed spec fn policy(&self) -> RetryPolicy {
        self.policy
    }

    /// Failed attempts reported so far.
    pub closed spec fn failures(&self) -> u32 {
        self.failures
    }

    /// The delay the next failure will be answered with.
    pub closed spec fn next_delay_ms(&self) -> u64 {
        self.next_delay_ms
    }

    /// The failure count never passes the budget, and the pending delay is
    /// always the initial delay scaled once per failure.
    pub open spec fn wf(&self) -> bool {
        &&& spec_policy_wf(self.policy())
        &&& self.failures() <= self.policy().max_attempts
        &&& self.next_delay_ms() == spec_delay_after(self.policy(), self.failures() as nat)
    }

    /// A fresh initializer: no failures, the initial delay pending.
    pub fn new(policy: RetryPolicy) -> (r: RetryingInitializer)
        requires
            spec_policy_wf(policy),
        ensures
            r.wf(),
            r.policy() == policy,
            r.failures() == 0,
    {
        RetryingInitializer { policy, failures: 0, next_delay_ms: policy.initial_delay_ms }
    }

    /// Report that the current attempt failed and learn what to do next.
    ///
    /// Success needs no call: the caller simply stops. If attempts remain,
    /// the decision carries the current backoff delay and the pending delay
    /// is scaled for the next failure; the decision is `Exhausted` exactly
    /// when this failure consumed the last attempt.
    pub fn on_failure(&mut self) -> (d: RetryDecision)
        requires
            old(self).wf(),
            old(self).failures() < old(self).policy().max_attempts,
        ensures
            final(self).wf(),
            final(self).policy() == old(self).policy(),
            final(self).failures() == old(self).failures() + 1,
            d == RetryDecision::Exhausted <==> old(self).failures() + 1 == old(
                self,
            ).policy().max_attempts,
            d != RetryDecision::Exhausted ==> d == RetryDecision::RetryAfterMs(
                spec_delay_after(old(self).policy(), old(self).failures() as nat),
            ),
    {
        self.failures = self.failures + 1;
        let delay = self.next_delay_ms;
        self.next_delay_ms = match delay.checked_mul(self.policy.backoff_multiplier as u64) {
            Some(scaled) => scaled,
            None => u64::MAX,
        };
        if self.failures >= self.policy.max_attempts {
            RetryDecision::Exhausted
        } else {
            RetryDecision::RetryAfterMs(delay)
        }
    }
}

/// While nothing saturates, the backoff schedule is exactly exponential:
/// the delay after failure `k + 1` is the initial delay times the
/// multiplier to the `k`-th power. With a multiplier of two the delays
/// double; with a multiplier of one they stay fixed.
pub proof fn lemma_backoff_exact(p: RetryPolicy, k: nat)
    requires
        spec_policy_wf(p),
        p.initial_delay_ms * pow(p.backoff_multiplier as int, k) <= u64::MAX,
    ensures
        spec_delay_after(p, k) == p.initial_delay_ms * pow(p.backoff_multiplier as int, k),
    decreases k,
{
    let b = p.backoff_multiplier as int;
    let d0 = p.initial_delay_ms as int;
    vstd::arithmetic::power::lemma_pow_positive(b, k);
    if k > 0 {
        let km1 = (k - 1) as nat;
        vstd::arithmetic::power::lemma_pow_positive(b, km1);
        assert(pow(b, k) == b * pow(b, km1)) by {
            reveal(pow);
        }
        assert(d0 * pow(b, km1) <= d0 * pow(b, k)) by (nonlinear_arith)
            requires
                b >= 1,
                d0 >= 0,
                pow(b, km1) >= 1,
                pow(b, k) == b * pow(b, km1),
        ;
        lemma_backoff_exact(p, km1);
        assert((d0 * pow(b, km1)) * b == d0 * pow(b, k)) by (nonlinear_arith)
            requires
                pow(b, k) == b * pow(b, km1),
        ;
    } else {
        assert(pow(b, 0) == 1) by {
            reveal(pow);
        }
    }
}

} // verus!
