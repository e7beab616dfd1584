use sensor_core::debounce::DebounceFilter;

#[test]
fn edge_past_threshold_is_forwarded() {
    let mut f = DebounceFilter::new(500, 1000);
    assert!(f.on_edge(1501));
}

#[test]
fn edge_at_threshold_is_suppressed() {
    // Elapsed time equal to the threshold is not enough: it must exceed it.
    let mut f = DebounceFilter::new(500, 1000);
    assert!(!f.on_edge(1500));
}

#[test]
fn second_edge_forwarded_iff_gap_exceeds_threshold() {
    let t = 10_000u64;
    for (delta, expected) in [(500u64, false), (501u64, true), (1u64, false)] {
        let mut f = DebounceFilter::new(500, 0);
        assert!(f.on_edge(t));
        assert_eq!(f.on_edge(t + delta), expected);
    }
}

#[test]
fn chatter_burst_forwards_only_the_first_edge() {
    let mut f = DebounceFilter::new(500, 1000);
    // Three events inside the window: only the first goes through, and the
    // stored timestamp still ends at the last event's time.
    assert!(f.on_edge(2000));
    assert!(!f.on_edge(2400));
    assert!(!f.on_edge(2800));
    assert_eq!(f.last_event_millis(), 2800);
}

#[test]
fn window_slides_with_suppressed_edges() {
    let mut f = DebounceFilter::new(500, 1000);
    assert!(f.on_edge(2000));
    assert!(!f.on_edge(2400));
    // 2700 is beyond 2000 + 500 but within 2400 + 500: the sliding window
    // keeps it suppressed.
    assert!(!f.on_edge(2700));
}

#[test]
fn backwards_clock_suppresses_and_keeps_timestamp() {
    let mut f = DebounceFilter::new(500, 5000);
    assert!(!f.on_edge(4000));
    assert_eq!(f.last_event_millis(), 5000);
}

#[test]
fn wall_clock_edges_debounce() {
    // Seeded with the epoch, the first real-time edge is far past any
    // threshold; an immediate second edge is inside it.
    let mut f = DebounceFilter::new(500, 0);
    assert!(f.on_edge_now());
    assert!(!f.on_edge_now());
    assert!(f.last_event_millis() > 0);
}
