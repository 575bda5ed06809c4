use codex_core::breaker::{CircuitBreaker, COOLDOWN_NANOS, FAILURE_THRESHOLD};
use std::sync::{Arc, Mutex};
use std::time::{Duration, Instant};

fn tripped_breaker() -> CircuitBreaker {
    let mut cb = CircuitBreaker::new();
    for _ in 0..FAILURE_THRESHOLD {
        cb.record_failure();
    }
    cb
}

#[test]
fn thresholds_have_their_documented_values() {
    assert_eq!(FAILURE_THRESHOLD, 3);
    assert_eq!(COOLDOWN_NANOS, 30_000_000_000);
    assert_eq!(COOLDOWN_NANOS, Duration::from_secs(30).as_nanos());
}

#[test]
fn new_breaker_is_closed_and_empty() {
    let cb = CircuitBreaker::new();
    assert_eq!(cb.failures(), 0);
    assert!(cb.last_failure().is_none());
    assert!(!cb.is_tripped());
    assert!(!cb.is_open());
}

#[test]
fn record_failure_counts_and_stamps() {
    let before = Instant::now();
    let mut cb = CircuitBreaker::new();
    cb.record_failure();
    let after = Instant::now();
    assert_eq!(cb.failures(), 1);
    assert!(!cb.is_tripped());
    let stamp = cb.last_failure().expect("a failure was recorded");
    assert!(before <= stamp && stamp <= after);
}

#[test]
fn record_failure_at_keeps_the_given_stamp() {
    let first = Instant::now();
    let second = first + Duration::from_millis(5);
    let mut cb = CircuitBreaker::new();
    cb.record_failure_at(first);
    assert_eq!(cb.last_failure(), Some(first));
    cb.record_failure_at(second);
    assert_eq!(cb.last_failure(), Some(second));
    assert_eq!(cb.failures(), 2);
    assert!(!cb.is_tripped());
}

#[test]
fn breaker_trips_exactly_at_the_third_failure() {
    let mut cb = CircuitBreaker::new();
    cb.record_failure();
    assert!(!cb.is_tripped());
    assert!(!cb.is_open());
    cb.record_failure();
    assert!(!cb.is_tripped());
    assert!(!cb.is_open());
    cb.record_failure();
    assert!(cb.is_tripped());
    assert_eq!(cb.failures(), 3);
    for extra in 1..=5u32 {
        cb.record_failure();
        assert!(cb.is_tripped());
        assert_eq!(cb.failures(), 3 + extra);
    }
    cb.reset();
    assert!(!cb.is_tripped());
}

#[test]
fn reset_clears_a_tripped_breaker() {
    let mut cb = tripped_breaker();
    cb.reset();
    assert_eq!(cb.failures(), 0);
    assert!(!cb.is_tripped());
    assert!(cb.last_failure().is_none());
    assert!(!cb.is_open());
}

#[test]
fn reset_clears_a_breaker_below_the_threshold() {
    let mut cb = CircuitBreaker::new();
    cb.record_failure();
    cb.record_failure();
    cb.reset();
    assert_eq!(cb.failures(), 0);
    assert!(!cb.is_tripped());
    assert!(cb.last_failure().is_none());
}

#[test]
fn reset_of_a_new_breaker_changes_nothing() {
    let mut cb = CircuitBreaker::new();
    cb.reset();
    assert_eq!(cb.failures(), 0);
    assert!(!cb.is_tripped());
    assert!(cb.last_failure().is_none());
}

#[test]
fn counting_starts_over_after_reset() {
    let mut cb = tripped_breaker();
    cb.reset();
    cb.record_failure();
    cb.record_failure();
    assert_eq!(cb.failures(), 2);
    assert!(!cb.is_tripped());
    cb.record_failure();
    assert!(cb.is_tripped());
}

#[test]
fn breaker_blocks_right_after_tripping() {
    let cb = tripped_breaker();
    assert!(cb.is_open());
    assert!(cb.is_open_after(0));
}

#[test]
fn cooldown_ends_strictly_after_thirty_seconds() {
    let cb = tripped_breaker();
    assert!(cb.is_open_after(1));
    assert!(cb.is_open_after(29_999_999_999));
    assert!(cb.is_open_after(30_000_000_000));
    assert!(!cb.is_open_after(30_000_000_001));
    assert!(!cb.is_open_after(u128::MAX));
}

#[test]
fn closed_breaker_never_blocks() {
    let mut cb = CircuitBreaker::new();
    assert!(!cb.is_open_after(0));
    cb.record_failure();
    cb.record_failure();
    assert!(!cb.is_open_after(0));
    assert!(!cb.is_open_after(30_000_000_001));
    assert!(!cb.is_open());
}

#[test]
fn checking_does_not_close_the_breaker() {
    let cb = tripped_breaker();
    let stamp = cb.last_failure();
    assert!(!cb.is_open_after(30_000_000_001));
    assert!(!cb.is_open_after(30_000_000_001));
    assert!(cb.is_tripped());
    assert_eq!(cb.failures(), 3);
    assert_eq!(cb.last_failure(), stamp);
    assert!(cb.is_open_after(0));
}

// The monotonic clock cannot name a point before its own origin, so on a
// machine that started less than 31 seconds ago there is no stale stamp to
// build and nothing to check.
#[test]
fn stale_failures_let_calls_through_by_the_clock() {
    let Some(stale) = Instant::now().checked_sub(Duration::from_secs(31)) else {
        return;
    };
    let mut cb = CircuitBreaker::new();
    cb.record_failure_at(stale);
    cb.record_failure_at(stale);
    cb.record_failure_at(stale);
    assert!(cb.is_tripped());
    assert!(!cb.is_open());
    assert!(!cb.is_open());
    assert!(cb.is_tripped());
    assert_eq!(cb.last_failure(), Some(stale));
}

#[test]
fn recent_failures_block_by_the_clock() {
    let Some(recent) = Instant::now().checked_sub(Duration::from_secs(5)) else {
        return;
    };
    let mut cb = CircuitBreaker::new();
    cb.record_failure_at(recent);
    cb.record_failure_at(recent);
    cb.record_failure_at(recent);
    assert!(cb.is_open());
}

#[test]
fn one_failure_while_probing_blocks_again() {
    let Some(stale) = Instant::now().checked_sub(Duration::from_secs(31)) else {
        return;
    };
    let mut cb = CircuitBreaker::new();
    cb.record_failure_at(stale);
    cb.record_failure_at(stale);
    cb.record_failure_at(stale);
    assert!(!cb.is_open());
    cb.record_failure();
    assert_eq!(cb.failures(), 4);
    assert!(cb.is_open());
}

#[test]
fn failures_recorded_under_one_lock_are_all_counted() {
    let shared = Arc::new(Mutex::new(CircuitBreaker::new()));
    let handles = [shared.clone(), shared.clone(), shared.clone(), shared.clone()];
    let mut recorded: u32 = 0;
    for round in 0..25u32 {
        for handle in handles.iter() {
            let mut cb = handle.lock().unwrap();
            cb.record_failure();
            recorded += 1;
            assert_eq!(cb.failures(), recorded);
        }
        assert_eq!(shared.lock().unwrap().failures(), 4 * (round + 1));
    }
    let cb = shared.lock().unwrap();
    assert_eq!(cb.failures(), 100);
    assert!(cb.is_tripped());
}
