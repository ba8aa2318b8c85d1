//! A circuit breaker for fault tolerance, with its state machine verified.
//!
//! The breaker counts consecutive failures and trips (opens) when a threshold
//! is reached. After a recovery timeout it lets a limited number of probe
//! requests through (half-open); enough successful probes close it again and
//! any failed probe opens it once more.
pub mod breaker;
pub mod config;
pub mod health;
pub mod laws;
pub mod metrics;
pub mod state;

pub use breaker::CircuitBreaker;
pub use config::Config;
pub use health::{HealthCheck, HealthStatus};
pub use metrics::Metrics;
pub use state::CircuitState;
