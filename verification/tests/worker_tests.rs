use sensor_core::events::{EdgeEvent, EventQueue};
use sensor_core::levels::Level;
use sensor_core::reading::{Reading, ReadingError};
use sensor_core::worker::{worker_step, WorkerAction};

fn reading(temperature_tenths: i32, humidity_tenths: u16) -> Reading {
    Reading { temperature_tenths, humidity_tenths }
}

#[test]
fn valid_fresh_reading_is_published_and_cached() {
    let last = reading(200, 500);
    let fresh = reading(228, 653);
    let (action, cached) = worker_step(&Ok(fresh), last);
    assert_eq!(action, WorkerAction::Publish(fresh));
    assert_eq!(cached, fresh);
}

#[test]
fn implausible_reading_is_skipped_and_not_cached() {
    let last = reading(200, 500);
    let (action, cached) = worker_step(&Ok(reading(2000, 500)), last);
    assert_eq!(action, WorkerAction::Skip);
    assert_eq!(cached, last);
}

#[test]
fn sentinel_reading_is_skipped_and_not_cached() {
    let last = reading(200, 500);
    let (action, cached) = worker_step(&Ok(reading(0, 0)), last);
    assert_eq!(action, WorkerAction::Skip);
    assert_eq!(cached, last);
}

#[test]
fn failed_read_publishes_the_last_known_good_reading() {
    // A door-state change must not be lost: the stale reading goes out.
    let last = reading(200, 500);
    for err in [ReadingError::Timeout, ReadingError::Checksum, ReadingError::Gpio] {
        let (action, cached) = worker_step(&Err(err), last);
        assert_eq!(action, WorkerAction::Publish(last));
        assert_eq!(cached, last);
    }
}

#[test]
fn events_dequeue_in_arrival_order() {
    let mut q = EventQueue::new();
    let a = EdgeEvent { level: Level::High, timestamp_ms: 1 };
    let b = EdgeEvent { level: Level::Low, timestamp_ms: 2 };
    let c = EdgeEvent { level: Level::High, timestamp_ms: 3 };
    q.enqueue(a);
    q.enqueue(b);
    assert_eq!(q.len(), 2);
    assert_eq!(q.dequeue(), Some(a));
    q.enqueue(c);
    assert_eq!(q.dequeue(), Some(b));
    assert_eq!(q.dequeue(), Some(c));
    assert_eq!(q.dequeue(), None);
    assert!(q.is_empty());
}
