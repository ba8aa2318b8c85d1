use circuit_breaker_rs::CircuitState;

#[test]
fn display_closed() {
    assert_eq!(CircuitState::Closed.to_string(), "Closed");
}

#[test]
fn display_open() {
    assert_eq!(CircuitState::Open.to_string(), "Open");
}

#[test]
fn display_half_open() {
    assert_eq!(CircuitState::HalfOpen.to_string(), "HalfOpen");
}

#[test]
fn closed_allows_requests() {
    assert!(CircuitState::Closed.allows_requests());
}

#[test]
fn open_rejects_requests() {
    assert!(!CircuitState::Open.allows_requests());
}

#[test]
fn half_open_allows_requests() {
    assert!(CircuitState::HalfOpen.allows_requests());
}

#[test]
fn closed_not_tripped() {
    assert!(!CircuitState::Closed.is_tripped());
}

#[test]
fn open_is_tripped() {
    assert!(CircuitState::Open.is_tripped());
}

#[test]
fn half_open_is_tripped() {
    assert!(CircuitState::HalfOpen.is_tripped());
}

#[test]
fn state_equality() {
    assert_eq!(CircuitState::Closed, CircuitState::Closed);
    assert_ne!(CircuitState::Closed, CircuitState::Open);
}

#[test]
fn state_copy() {
    let s = CircuitState::Closed;
    let s2 = s;
    assert_eq!(s, s2);
}

#[test]
fn tripped_is_not_closed_for_every_state() {
    for s in [CircuitState::Closed, CircuitState::Open, CircuitState::HalfOpen] {
        assert_eq!(s.is_tripped(), s != CircuitState::Closed);
        assert_eq!(s.allows_requests(), s != CircuitState::Open);
    }
}
