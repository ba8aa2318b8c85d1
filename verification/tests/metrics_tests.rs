use circuit_breaker_rs::Metrics;

#[test]
fn new_metrics_zeroed() {
    let m = Metrics::new();
    assert_eq!(m.successes, 0);
    assert_eq!(m.failures, 0);
    assert_eq!(m.rejected, 0);
    assert_eq!(m.opened_count, 0);
    assert_eq!(m.closed_count, 0);
    assert_eq!(m.half_opened_count, 0);
    assert_eq!(m.last_transition_secs, None);
    assert_eq!(m.total_open_duration_secs, 0);
}

#[test]
fn record_success() {
    let mut m = Metrics::new();
    m.record_success();
    m.record_success();
    assert_eq!(m.successes, 2);
}

#[test]
fn record_failure() {
    let mut m = Metrics::new();
    m.record_failure();
    assert_eq!(m.failures, 1);
}

#[test]
fn record_rejected() {
    let mut m = Metrics::new();
    m.record_rejected();
    m.record_rejected();
    m.record_rejected();
    assert_eq!(m.rejected, 3);
}

#[test]
fn total_requests() {
    let mut m = Metrics::new();
    m.record_success();
    m.record_failure();
    m.record_rejected();
    assert_eq!(m.total_requests(), 3);
}

#[test]
fn reset() {
    let mut m = Metrics::new();
    m.record_success();
    m.record_failure();
    m.reset();
    assert_eq!(m.successes, 0);
    assert_eq!(m.failures, 0);
}

#[test]
fn transition_recording() {
    let mut m = Metrics::new();
    m.record_transition(100);
    assert_eq!(m.last_transition_secs, Some(100));
}

#[test]
fn add_open_duration() {
    let mut m = Metrics::new();
    m.add_open_duration(30);
    m.add_open_duration(20);
    assert_eq!(m.total_open_duration_secs, 50);
}

#[test]
fn increment_counters() {
    let mut m = Metrics::new();
    m.increment_opened();
    m.increment_closed();
    m.increment_half_opened();
    assert_eq!(m.opened_count, 1);
    assert_eq!(m.closed_count, 1);
    assert_eq!(m.half_opened_count, 1);
}

#[test]
fn default_metrics_are_new_metrics() {
    let m = Metrics::default();
    assert_eq!(m.total_requests(), 0);
    assert_eq!(m.last_transition_secs, None);
    assert_eq!(m.opened_count, 0);
}

#[test]
fn reset_clears_every_counter() {
    let mut m = Metrics::new();
    m.record_rejected();
    m.increment_opened();
    m.increment_closed();
    m.increment_half_opened();
    m.record_transition(5);
    m.add_open_duration(9);
    m.reset();
    assert_eq!(m.rejected, 0);
    assert_eq!(m.opened_count, 0);
    assert_eq!(m.closed_count, 0);
    assert_eq!(m.half_opened_count, 0);
    assert_eq!(m.last_transition_secs, None);
    assert_eq!(m.total_open_duration_secs, 0);
}

#[test]
fn total_requests_sums_the_three_counters() {
    let mut m = Metrics::new();
    m.successes = 4;
    m.failures = 5;
    m.rejected = 6;
    assert_eq!(m.total_requests(), 15);
}

#[test]
fn later_transition_replaces_earlier() {
    let mut m = Metrics::new();
    m.record_transition(100);
    m.record_transition(40);
    assert_eq!(m.last_transition_secs, Some(40));
}
