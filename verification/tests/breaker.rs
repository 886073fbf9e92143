use webreg::breaker::CircuitBreaker;

const SECOND: u128 = 1_000_000_000;

#[test]
fn test_circuit_breaker_threshold() {
    let mut cb = CircuitBreaker::new(3, SECOND);

    assert!(!cb.is_open());
    cb.record_failure();
    assert!(!cb.is_open());
    cb.record_failure();
    assert!(!cb.is_open());
    cb.record_failure();
    assert!(cb.is_open());

    cb.record_success();
    assert!(!cb.is_open());
}

#[test]
fn breaker_opens_exactly_at_the_threshold() {
    let mut cb = CircuitBreaker::new(3, SECOND);
    assert!(!cb.is_open_at(0));
    cb.record_failure_at(10);
    cb.record_failure_at(20);
    assert_eq!(cb.failure_count(), 2);
    assert!(!cb.is_open_at(25));
    cb.record_failure_at(30);
    assert_eq!(cb.failure_count(), 3);
    assert!(cb.is_open_at(30));
    assert!(cb.is_open_at(30 + SECOND));
}

#[test]
fn breaker_heals_after_the_recovery_time() {
    let mut cb = CircuitBreaker::new(3, SECOND);
    cb.record_failure_at(0);
    cb.record_failure_at(0);
    cb.record_failure_at(100);
    assert!(cb.is_open_at(100 + SECOND));
    assert_eq!(cb.failure_count(), 3);
    assert!(!cb.is_open_at(101 + SECOND));
    assert_eq!(cb.failure_count(), 0);
    assert!(!cb.is_open_at(101 + SECOND));
    assert!(!cb.is_open_at(0));
}

#[test]
fn success_clears_the_count() {
    let mut cb = CircuitBreaker::new(2, SECOND);
    cb.record_failure_at(5);
    cb.record_failure_at(6);
    assert!(cb.is_open_at(7));
    cb.record_success();
    assert_eq!(cb.failure_count(), 0);
    assert!(!cb.is_open_at(7));
    cb.record_failure_at(8);
    assert!(!cb.is_open_at(9));
}

#[test]
fn reset_clears_count_and_time() {
    let mut cb = CircuitBreaker::new(1, SECOND);
    cb.record_failure_at(5);
    assert!(cb.is_open_at(6));
    cb.reset();
    assert_eq!(cb.failure_count(), 0);
    assert!(!cb.is_open_at(6));
}

#[test]
fn a_clock_that_runs_backwards_counts_as_no_time_passed() {
    let mut cb = CircuitBreaker::new(1, 10);
    cb.record_failure_at(1_000);
    assert!(cb.is_open_at(0));
    assert!(cb.is_open_at(1_010));
    assert!(!cb.is_open_at(1_011));
}

#[test]
fn default_breaker_takes_five_failures() {
    let mut cb = CircuitBreaker::with_defaults();
    for at in 0..4u128 {
        cb.record_failure_at(at);
    }
    assert!(!cb.is_open_at(4));
    cb.record_failure_at(4);
    assert!(cb.is_open_at(4 + 30 * SECOND));
    assert!(!cb.is_open_at(5 + 30 * SECOND));
    let mut other = CircuitBreaker::default();
    assert!(!other.is_open());
    assert_eq!(other.failure_count(), 0);
}

#[test]
fn the_count_stops_at_its_largest_value() {
    let mut cb = CircuitBreaker::new(u32::MAX, SECOND);
    cb.record_failure_at(0);
    assert_eq!(cb.failure_count(), 1);
    assert!(!cb.is_open_at(0));
}
