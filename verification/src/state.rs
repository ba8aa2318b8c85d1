//! The three states of a circuit breaker.
use vstd::prelude::*;

verus! {

/// The three states of a circuit breaker.
#[derive(Debug, Clone, Copy, PartialEq, Eq, Hash, Structural)]
pub enum CircuitState {
    /// Normal operation. Requests are allowed.
    Closed,
    /// Tripped. Requests are rejected.
    Open,
    /// Probing recovery. Limited requests allowed.
    HalfOpen,
}

impl CircuitState {
    /// The name of the state, as it is displayed.
    pub open spec fn label(self) -> Seq<char> {
        match self {
            CircuitState::Closed => "Closed"@,
            CircuitState::Open => "Open"@,
            CircuitState::HalfOpen => "HalfOpen"@,
        }
    }

    /// Requests may pass in this state: it is closed or half-open.
    pub open spec fn spec_allows_requests(self) -> bool {
        self == CircuitState::Closed || self == CircuitState::HalfOpen
    }

    /// The circuit is tripped: it is open or half-open.
    pub open spec fn spec_is_tripped(self) -> bool {
        self != CircuitState::Closed
    }

    /// Returns `true` if requests should be allowed in this state.
    pub fn allows_requests(&self) -> (r: bool)
        ensures
            r == self.spec_allows_requests(),
    {
        match self {
            CircuitState::Closed => true,
            CircuitState::Open => false,
            CircuitState::HalfOpen => true,
        }
    }

    /// Returns `true` if the circuit is tripped (open or half-open).
    pub fn is_tripped(&self) -> (r: bool)
        ensures
            r == self.spec_is_tripped(),
    {
        match self {
            CircuitState::Closed => false,
            _ => true,
        }
    }

    /// The name of the state: `"Closed"`, `"Open"` or `"HalfOpen"`.
    pub fn to_string(&self) -> (s: String)
        ensures
            s@ == self.label(),
    {
        match self {
            CircuitState::Closed => String::from_str("Closed"),
            CircuitState::Open => String::from_str("Open"),
            CircuitState::HalfOpen => String::from_str("HalfOpen"),
        }
    }
}

} // verus!
