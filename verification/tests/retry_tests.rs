use sensor_core::retry::{RetryDecision, RetryPolicy, RetryingInitializer};

fn policy(max_attempts: u32, initial_delay_ms: u64, backoff_multiplier: u32) -> RetryPolicy {
    RetryPolicy {
        max_attempts,
        per_attempt_timeout_ms: 20_000,
        initial_delay_ms,
        backoff_multiplier,
    }
}

#[test]
fn two_failures_then_success_sleeps_one_then_two_seconds() {
    // Attempts one and two fail, attempt three succeeds: the caller sleeps
    // 1 s then 2 s and never hears "exhausted".
    let mut r = RetryingInitializer::new(policy(10, 1000, 2));
    assert_eq!(r.on_failure(), RetryDecision::RetryAfterMs(1000));
    assert_eq!(r.on_failure(), RetryDecision::RetryAfterMs(2000));
    // Attempt three succeeds: nothing more to report.
}

#[test]
fn always_failing_exhausts_after_exactly_max_attempts() {
    let mut r = RetryingInitializer::new(policy(4, 1000, 2));
    let mut decisions = Vec::new();
    for _ in 0..4 {
        decisions.push(r.on_failure());
    }
    assert_eq!(
        decisions,
        vec![
            RetryDecision::RetryAfterMs(1000),
            RetryDecision::RetryAfterMs(2000),
            RetryDecision::RetryAfterMs(4000),
            RetryDecision::Exhausted,
        ]
    );
}

#[test]
fn single_attempt_budget_exhausts_immediately() {
    let mut r = RetryingInitializer::new(policy(1, 1000, 2));
    assert_eq!(r.on_failure(), RetryDecision::Exhausted);
}

#[test]
fn multiplier_one_keeps_the_delay_fixed() {
    // A sensor read must not be retried faster than a fixed spacing: a
    // multiplier of one gives that spacing on every failure.
    let mut r = RetryingInitializer::new(policy(4, 5000, 1));
    assert_eq!(r.on_failure(), RetryDecision::RetryAfterMs(5000));
    assert_eq!(r.on_failure(), RetryDecision::RetryAfterMs(5000));
    assert_eq!(r.on_failure(), RetryDecision::RetryAfterMs(5000));
}

#[test]
fn doubling_saturates_instead_of_wrapping() {
    let big = u64::MAX / 2 + 1;
    let mut r = RetryingInitializer::new(policy(3, big, 2));
    assert_eq!(r.on_failure(), RetryDecision::RetryAfterMs(big));
    assert_eq!(r.on_failure(), RetryDecision::RetryAfterMs(u64::MAX));
}
