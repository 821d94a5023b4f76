use shape_interop::timer::{is_due, PUBLISH_INTERVAL_NANOS};

#[test]
fn publish_interval_is_200_milliseconds() {
    assert_eq!(PUBLISH_INTERVAL_NANOS, 200_000_000);
}

#[test]
fn write_is_due_strictly_after_the_interval() {
    assert!(!is_due(0, 0));
    assert!(!is_due(0, 199_999_999));
    assert!(!is_due(0, 200_000_000));
    assert!(is_due(0, 200_000_001));
    assert!(!is_due(1_000, 200_001_000));
    assert!(is_due(1_000, 200_001_001));
}

#[test]
fn clock_behind_the_last_write_is_never_due() {
    assert!(!is_due(500_000_000, 100));
    assert!(!is_due(u64::MAX, 0));
}

#[test]
fn due_at_the_end_of_the_clock_range() {
    assert!(is_due(0, u64::MAX));
    assert!(!is_due(u64::MAX - 200_000_000, u64::MAX));
    assert!(is_due(u64::MAX - 200_000_001, u64::MAX));
}

// Counts the writes over clock readings that are `step` apart, as the loop
// would make them.
fn writes_over(step: u64, turns: u64) -> (u64, u64) {
    let mut last_write = 0;
    let mut now = 0;
    let mut writes = 0;
    for _ in 0..turns {
        now += step;
        if is_due(last_write, now) {
            writes += 1;
            last_write = now;
        }
    }
    (writes, now)
}

#[test]
fn writes_follow_the_elapsed_time() {
    // Readings one millisecond apart: the gaps of 150 turns add up to less
    // than one interval.
    let (writes, elapsed) = writes_over(1_000_000, 150);
    assert_eq!(elapsed / PUBLISH_INTERVAL_NANOS, 0);
    assert_eq!(writes, 0);
    let (writes, elapsed) = writes_over(1_999_999, 199);
    assert_eq!(elapsed / PUBLISH_INTERVAL_NANOS, 1);
    assert_eq!(writes, 1);
    let (writes, elapsed) = writes_over(1_000_000, 199);
    let quotient = elapsed / PUBLISH_INTERVAL_NANOS;
    assert!(writes == quotient || writes + 1 == quotient);
}

#[test]
fn writes_never_exceed_the_quotient() {
    for step in [1, 999, 1_000_000, 150_000_000, 200_000_000, 200_000_001, 700_000_000] {
        for turns in [0, 1, 2, 10, 1000] {
            let (writes, elapsed) = writes_over(step, turns);
            assert!(writes <= elapsed / PUBLISH_INTERVAL_NANOS);
            assert!(elapsed <= writes * (PUBLISH_INTERVAL_NANOS + step) + PUBLISH_INTERVAL_NANOS);
        }
    }
}

// With the clock read only once a second, one write falls due per reading,
// far fewer than one per interval.
#[test]
fn rare_readings_make_rare_writes() {
    let (writes, elapsed) = writes_over(1_000_000_000, 10);
    assert_eq!(writes, 10);
    assert_eq!(elapsed / PUBLISH_INTERVAL_NANOS, 50);
}
