use circuit_breaker_rs::{CircuitBreaker, CircuitState, Config};

fn config(failures: u32, timeout: u64, probes: u32, successes: u32) -> Config {
    Config::builder()
        .failure_threshold(failures)
        .recovery_timeout_secs(timeout)
        .half_open_max_probes(probes)
        .success_threshold(successes)
        .build()
        .unwrap()
}

fn opened_at(time: u64, cfg: Config) -> CircuitBreaker {
    let mut cb = CircuitBreaker::with_time(cfg, time);
    for _ in 0..cfg_failures(&cb) {
        cb.record_failure();
    }
    assert_eq!(cb.state(), CircuitState::Open);
    cb
}

fn cfg_failures(cb: &CircuitBreaker) -> u32 {
    cb.config().failure_threshold
}

#[test]
fn new_breaker_has_clock_at_zero_and_empty_metrics() {
    let cb = CircuitBreaker::new(Config::default());
    assert_eq!(cb.state(), CircuitState::Closed);
    assert_eq!(cb.consecutive_failures(), 0);
    assert_eq!(cb.consecutive_successes(), 0);
    assert_eq!(cb.metrics().total_requests(), 0);
    assert_eq!(cb.config().failure_threshold, 5);
    assert_eq!(cb.remaining_probes(), 1);
}

#[test]
fn trips_exactly_at_failure_threshold() {
    for threshold in 1..6u32 {
        let mut cb = CircuitBreaker::new(config(threshold, 10, 1, 1));
        for k in 1..threshold {
            cb.record_failure();
            assert_eq!(cb.state(), CircuitState::Closed);
            assert_eq!(cb.consecutive_failures(), k);
        }
        cb.record_failure();
        assert_eq!(cb.state(), CircuitState::Open);
        assert_eq!(cb.consecutive_failures(), 0);
        cb.record_failure();
        assert_eq!(cb.state(), CircuitState::Open);
    }
}

#[test]
fn interleaved_success_restarts_failure_count() {
    let mut cb = CircuitBreaker::new(config(3, 10, 1, 1));
    cb.record_failure();
    cb.record_failure();
    cb.record_success();
    cb.record_failure();
    cb.record_failure();
    assert_eq!(cb.state(), CircuitState::Closed);
    // a failure ends the run of successes
    assert_eq!(cb.consecutive_successes(), 0);
    cb.record_failure();
    assert_eq!(cb.state(), CircuitState::Open);
}

#[test]
fn open_rejects_until_timeout_then_half_opens() {
    let mut cb = opened_at(1000, config(2, 30, 1, 1));
    for t in [1000u64, 1010, 1029] {
        cb.set_time(t);
        assert!(!cb.allow_request());
        assert_eq!(cb.state(), CircuitState::Open);
    }
    assert_eq!(cb.metrics().rejected, 3);
    cb.set_time(1030);
    assert!(cb.allow_request());
    assert_eq!(cb.state(), CircuitState::HalfOpen);
    assert_eq!(cb.metrics().half_opened_count, 1);
    assert_eq!(cb.metrics().last_transition_secs, Some(1030));
    assert_eq!(cb.metrics().total_open_duration_secs, 30);
}

#[test]
fn clock_set_back_counts_no_open_time() {
    let mut cb = opened_at(500, config(1, 10, 1, 1));
    cb.set_time(100);
    assert!(!cb.allow_request());
    assert_eq!(cb.state(), CircuitState::Open);
    cb.set_time(510);
    assert!(cb.allow_request());
    assert_eq!(cb.metrics().total_open_duration_secs, 10);
}

#[test]
fn probe_budget_lets_exactly_the_budget_through() {
    let mut cb = opened_at(0, config(1, 5, 3, 10));
    cb.advance_time(5);
    let mut allowed = 0;
    for _ in 0..7 {
        if cb.allow_request() {
            allowed += 1;
        }
    }
    assert_eq!(allowed, 3);
    assert_eq!(cb.remaining_probes(), 0);
    assert_eq!(cb.state(), CircuitState::HalfOpen);
    assert_eq!(cb.metrics().rejected, 4);
}

#[test]
fn closes_exactly_at_success_threshold() {
    let mut cb = opened_at(0, config(1, 5, 1, 4));
    cb.advance_time(5);
    assert!(cb.allow_request());
    for k in 1..4u32 {
        cb.record_success();
        assert_eq!(cb.state(), CircuitState::HalfOpen);
        assert_eq!(cb.consecutive_successes(), k);
    }
    cb.record_success();
    assert_eq!(cb.state(), CircuitState::Closed);
    assert_eq!(cb.consecutive_successes(), 0);
    assert_eq!(cb.metrics().closed_count, 1);
    assert!(cb.allow_request());
}

#[test]
fn half_open_failure_reopens_at_current_time() {
    let mut cb = opened_at(0, config(1, 5, 1, 4));
    cb.advance_time(7);
    assert!(cb.allow_request());
    cb.record_failure();
    assert_eq!(cb.state(), CircuitState::Open);
    assert_eq!(cb.metrics().last_transition_secs, Some(7));
    assert_eq!(cb.metrics().opened_count, 2);
    cb.advance_time(4);
    assert!(!cb.allow_request());
    cb.advance_time(1);
    assert!(cb.allow_request());
    assert_eq!(cb.metrics().total_open_duration_secs, 7 + 5);
}

#[test]
fn reset_keeps_metrics_and_lets_requests_through() {
    let mut cb = opened_at(0, config(2, 5, 1, 1));
    assert!(!cb.allow_request());
    cb.reset();
    assert_eq!(cb.state(), CircuitState::Closed);
    assert_eq!(cb.metrics().failures, 2);
    assert_eq!(cb.metrics().rejected, 1);
    assert_eq!(cb.metrics().opened_count, 1);
    assert!(cb.allow_request());
    assert_eq!(cb.metrics().rejected, 1);
}

#[test]
fn every_operation_counts_once() {
    let mut cb = opened_at(0, config(1, 5, 1, 1));
    let before = cb.metrics().total_requests();
    cb.allow_request();
    cb.record_success();
    cb.record_failure();
    assert_eq!(cb.metrics().total_requests(), before + 3);
}

#[test]
fn success_while_open_changes_only_metrics() {
    let mut cb = opened_at(0, config(1, 5, 1, 1));
    cb.record_success();
    assert_eq!(cb.state(), CircuitState::Open);
    assert_eq!(cb.consecutive_successes(), 0);
    assert_eq!(cb.metrics().successes, 1);
}

#[test]
fn unvalidated_zero_failure_threshold_opens_on_first_failure() {
    let cfg = Config { failure_threshold: 0, ..Config::default() };
    let mut cb = CircuitBreaker::new(cfg);
    assert!(cb.allow_request());
    cb.record_failure();
    assert_eq!(cb.state(), CircuitState::Open);
}

#[test]
fn allowed_request_leaves_a_state_that_allows_requests() {
    let mut cb = opened_at(0, config(1, 5, 1, 1));
    cb.advance_time(5);
    assert!(cb.allow_request());
    assert!(cb.state().allows_requests());
    assert!(cb.state().is_tripped());
}

#[test]
fn failure_while_closed_clears_success_count() {
    let mut cb = CircuitBreaker::new(config(3, 10, 1, 1));
    cb.record_success();
    cb.record_success();
    assert_eq!(cb.consecutive_successes(), 2);
    cb.record_failure();
    assert_eq!(cb.state(), CircuitState::Closed);
    assert_eq!(cb.consecutive_successes(), 0);
    assert_eq!(cb.consecutive_failures(), 1);
}

#[test]
fn clone_keeps_state_clock_and_metrics() {
    let mut cb = opened_at(40, config(1, 5, 2, 1));
    assert!(!cb.allow_request());
    let mut copy = cb.clone();
    assert_eq!(copy.state(), CircuitState::Open);
    assert_eq!(copy.metrics().rejected, 1);
    assert_eq!(copy.metrics().opened_count, 1);
    copy.advance_time(5);
    assert!(copy.allow_request());
    assert_eq!(copy.state(), CircuitState::HalfOpen);
    assert_eq!(cb.state(), CircuitState::Open);
    assert_eq!(copy.metrics().total_open_duration_secs, 5);
}
