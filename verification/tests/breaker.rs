//! The circuit breaker.

use ticket_system::breaker::{CircuitBreaker, CircuitState};
use ticket_system::config::{
    CircuitBreakerConfig, DEFAULT_BREAKER_TIMEOUT_SECONDS, DEFAULT_FAILURE_THRESHOLD,
};

#[test]
fn breaker_starts_closed() {
    let mut breaker = CircuitBreaker::new(5, 60);
    assert_eq!(breaker.get_state(), CircuitState::Closed);
    assert_eq!(breaker.failure_count(), 0);
    assert!(breaker.can_execute_at(0));
    assert!(breaker.can_execute());
    assert_eq!(breaker.get_state(), CircuitState::Closed);
}

#[test]
fn breaker_defaults() {
    let config = CircuitBreakerConfig::default();
    assert_eq!(config.failure_threshold, 5);
    assert_eq!(config.timeout_seconds, 60);
    assert_eq!(DEFAULT_FAILURE_THRESHOLD, 5);
    assert_eq!(DEFAULT_BREAKER_TIMEOUT_SECONDS, 60);
}

#[test]
fn breaker_opens_at_the_threshold() {
    let mut breaker = CircuitBreaker::new(5, 60);
    for n in 1..=4 {
        breaker.record_failure_at(100 + n);
        assert_eq!(breaker.get_state(), CircuitState::Closed);
        assert_eq!(breaker.failure_count(), n as u32);
        assert!(breaker.can_execute_at(100 + n));
    }
    breaker.record_failure_at(105);
    assert_eq!(breaker.get_state(), CircuitState::Open);
    assert_eq!(breaker.failure_count(), 5);
    assert!(!breaker.can_execute_at(105));
    assert!(!breaker.can_execute_at(164));
    assert_eq!(breaker.get_state(), CircuitState::Open);
}

#[test]
fn success_clears_the_count_of_a_closed_breaker() {
    let mut breaker = CircuitBreaker::new(3, 60);
    breaker.record_failure_at(1);
    breaker.record_failure_at(2);
    breaker.record_success();
    assert_eq!(breaker.failure_count(), 0);
    breaker.record_failure_at(3);
    breaker.record_failure_at(4);
    assert_eq!(breaker.get_state(), CircuitState::Closed);
    breaker.record_failure_at(5);
    assert_eq!(breaker.get_state(), CircuitState::Open);
}

#[test]
fn open_breaker_probes_after_the_timeout() {
    let mut breaker = CircuitBreaker::new(2, 60);
    breaker.record_failure_at(1000);
    breaker.record_failure_at(1010);
    assert_eq!(breaker.get_state(), CircuitState::Open);
    assert!(!breaker.can_execute_at(1069));
    assert_eq!(breaker.get_state(), CircuitState::Open);
    assert!(breaker.can_execute_at(1070));
    assert_eq!(breaker.get_state(), CircuitState::HalfOpen);
    // Further calls act as further probes.
    assert!(breaker.can_execute_at(1070));
    assert_eq!(breaker.get_state(), CircuitState::HalfOpen);
}

#[test]
fn probe_that_succeeds_closes_the_breaker() {
    let mut breaker = CircuitBreaker::new(2, 60);
    breaker.record_failure_at(0);
    breaker.record_failure_at(0);
    assert!(breaker.can_execute_at(60));
    breaker.record_success();
    assert_eq!(breaker.get_state(), CircuitState::Closed);
    assert_eq!(breaker.failure_count(), 0);
    assert!(breaker.can_execute_at(61));
}

#[test]
fn probe_that_fails_opens_the_breaker_again() {
    let mut breaker = CircuitBreaker::new(2, 60);
    breaker.record_failure_at(0);
    breaker.record_failure_at(0);
    assert!(breaker.can_execute_at(100));
    breaker.record_failure_at(100);
    assert_eq!(breaker.get_state(), CircuitState::Open);
    assert_eq!(breaker.failure_count(), 3);
    assert!(!breaker.can_execute_at(159));
    assert!(breaker.can_execute_at(160));
}

#[test]
fn success_does_not_close_an_open_breaker() {
    let mut breaker = CircuitBreaker::new(1, 60);
    breaker.record_failure_at(10);
    assert_eq!(breaker.get_state(), CircuitState::Open);
    breaker.record_success();
    assert_eq!(breaker.get_state(), CircuitState::Open);
    assert_eq!(breaker.failure_count(), 1);
}

#[test]
fn a_clock_that_reads_less_has_not_waited() {
    let mut breaker = CircuitBreaker::new(1, 1);
    breaker.record_failure_at(500);
    assert!(!breaker.can_execute_at(499));
    assert!(!breaker.can_execute_at(0));
    assert!(!breaker.can_execute_at(500));
    assert!(breaker.can_execute_at(501));
}

#[test]
fn breaker_without_timeout_probes_at_once() {
    let mut breaker = CircuitBreaker::new(1, 0);
    breaker.record_failure();
    assert_eq!(breaker.get_state(), CircuitState::Open);
    assert!(breaker.can_execute());
    assert_eq!(breaker.get_state(), CircuitState::HalfOpen);
    breaker.record_failure_at(7);
    assert!(breaker.can_execute_at(3));
}

#[test]
fn breaker_with_threshold_zero_opens_on_the_first_failure() {
    let mut breaker = CircuitBreaker::new(0, 60);
    assert!(breaker.can_execute_at(0));
    breaker.record_failure_at(0);
    assert_eq!(breaker.get_state(), CircuitState::Open);
}

#[test]
fn breaker_reads_its_own_clock() {
    let mut breaker = CircuitBreaker::new(1, 3600);
    breaker.record_failure();
    assert_eq!(breaker.get_state(), CircuitState::Open);
    assert_eq!(breaker.failure_count(), 1);
    assert!(!breaker.can_execute());
    assert_eq!(breaker.get_state(), CircuitState::Open);
}

#[test]
fn failures_in_any_interleaving_open_the_breaker() {
    // Attempts between the failures, at any time, change nothing.
    for threshold in 1..=4u32 {
        for gaps in 0..16u32 {
            let mut breaker = CircuitBreaker::new(threshold, 10);
            let mut now = 0;
            for n in 0..threshold {
                if gaps & (1 << n) != 0 {
                    now += 25;
                    breaker.can_execute_at(now);
                }
                now += 1;
                breaker.record_failure_at(now);
            }
            assert_eq!(breaker.get_state(), CircuitState::Open);
        }
    }
}
