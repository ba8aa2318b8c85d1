//! Health checks of downstream services.
//!
//! Provides a [`HealthCheck`] trait and built-in checks with fixed answers.
use vstd::prelude::*;

verus! {

/// Result of a health check probe.
#[derive(Debug, Clone, Copy, PartialEq, Eq, Structural)]
pub enum HealthStatus {
    /// The downstream service is healthy.
    Healthy,
    /// The downstream service is unhealthy.
    Unhealthy,
    /// Health check could not be performed.
    Unknown,
}

/// A trait for health checking downstream services.
///
/// Implement this trait to integrate with your service discovery or
/// liveness probe mechanism.
pub trait HealthCheck {
    /// Perform a health check and return the status.
    fn check(&self) -> HealthStatus;
}

/// A health check that always returns [`HealthStatus::Healthy`].
#[derive(Debug, Clone, Default)]
pub struct AlwaysHealthy;

impl HealthCheck for AlwaysHealthy {
    fn check(&self) -> (s: HealthStatus)
        ensures
            s == HealthStatus::Healthy,
    {
        HealthStatus::Healthy
    }
}

/// A health check that always returns [`HealthStatus::Unhealthy`].
#[derive(Debug, Clone, Default)]
pub struct AlwaysUnhealthy;

impl HealthCheck for AlwaysUnhealthy {
    fn check(&self) -> (s: HealthStatus)
        ensures
            s == HealthStatus::Unhealthy,
    {
        HealthStatus::Unhealthy
    }
}

/// A health check that returns a configurable result.
#[derive(Debug, Clone)]
pub struct StaticHealthCheck {
    status: HealthStatus,
}

impl StaticHealthCheck {
    /// The status that every check reports.
    pub closed spec fn status(self) -> HealthStatus {
        self.status
    }

    /// Create a new static health check with the given status.
    pub fn new(status: HealthStatus) -> (c: Self)
        ensures
            c.status() == status,
    {
        StaticHealthCheck { status }
    }
}

impl HealthCheck for StaticHealthCheck {
    fn check(&self) -> (s: HealthStatus)
        ensures
            s == self.status(),
    {
        self.status
    }
}

} // verus!
