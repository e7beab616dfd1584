use sensor_core::command::{
    evaluate_command, evaluate_command_now, CommandDecision, CommandRequest,
    FRESHNESS_WINDOW_SECONDS,
};

fn request(issued_at_epoch_seconds: u64, command_code: i32) -> CommandRequest {
    CommandRequest { issued_at_epoch_seconds, command_code }
}

#[test]
fn command_ten_seconds_old_is_accepted() {
    let now = 1_000_000u64;
    assert_eq!(
        evaluate_command(&request(now - 10, 0), now),
        CommandDecision::Refresh
    );
}

#[test]
fn command_twenty_seconds_old_is_rejected() {
    let now = 1_000_000u64;
    assert_eq!(
        evaluate_command(&request(now - 20, 0), now),
        CommandDecision::RejectedStale
    );
}

#[test]
fn future_dated_command_is_rejected() {
    let now = 1_000_000u64;
    assert_eq!(
        evaluate_command(&request(now + 5, 0), now),
        CommandDecision::RejectedFuture
    );
}

#[test]
fn freshness_window_boundary_is_inclusive() {
    let now = 1_000_000u64;
    assert_eq!(
        evaluate_command(&request(now - FRESHNESS_WINDOW_SECONDS, 0), now),
        CommandDecision::Refresh
    );
    assert_eq!(
        evaluate_command(&request(now - FRESHNESS_WINDOW_SECONDS - 1, 0), now),
        CommandDecision::RejectedStale
    );
}

#[test]
fn command_issued_exactly_now_is_accepted() {
    let now = 1_000_000u64;
    assert_eq!(evaluate_command(&request(now, 1), now), CommandDecision::Status);
}

#[test]
fn unknown_code_is_ignored_not_fatal() {
    let now = 1_000_000u64;
    assert_eq!(
        evaluate_command(&request(now - 1, 7), now),
        CommandDecision::IgnoredUnknown
    );
    assert_eq!(
        evaluate_command(&request(now - 1, -3), now),
        CommandDecision::IgnoredUnknown
    );
}

#[test]
fn staleness_outranks_the_code() {
    // A stale command is rejected before its code is looked at.
    let now = 1_000_000u64;
    assert_eq!(
        evaluate_command(&request(now - 100, 7), now),
        CommandDecision::RejectedStale
    );
}

#[test]
fn wall_clock_evaluation_accepts_a_recent_command() {
    let issued = (chrono::Utc::now().timestamp() - 10) as u64;
    assert_eq!(
        evaluate_command_now(&request(issued, 0)),
        CommandDecision::Refresh
    );
}

#[test]
fn wall_clock_evaluation_rejects_a_stale_command() {
    let issued = (chrono::Utc::now().timestamp() - 1000) as u64;
    assert_eq!(
        evaluate_command_now(&request(issued, 0)),
        CommandDecision::RejectedStale
    );
}
