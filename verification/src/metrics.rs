//! Counters of what a circuit breaker has seen and done.
use vstd::prelude::*;

verus! {

/// Collected metrics for a circuit breaker instance.
#[derive(Debug)]
pub struct Metrics {
    /// Total successful requests recorded.
    pub successes: u64,
    /// Total failed requests recorded.
    pub failures: u64,
    /// Total requests rejected because the circuit was open.
    pub rejected: u64,
    /// Number of times the circuit transitioned to Open.
    pub opened_count: u64,
    /// Number of times the circuit transitioned to Closed.
    pub closed_count: u64,
    /// Number of times the circuit transitioned to HalfOpen.
    pub half_opened_count: u64,
    /// Time of the last state transition (epoch seconds).
    pub last_transition_secs: Option<u64>,
    /// Duration spent in Open state total (seconds).
    pub total_open_duration_secs: u64,
}

impl Metrics {
    /// All counters zero, no transition recorded.
    pub open spec fn zeroed() -> Metrics {
        Metrics {
            successes: 0,
            failures: 0,
            rejected: 0,
            opened_count: 0,
            closed_count: 0,
            half_opened_count: 0,
            last_transition_secs: None,
            total_open_duration_secs: 0,
        }
    }

    /// The sum of successes, failures and rejections.
    pub open spec fn spec_total_requests(self) -> int {
        self.successes + self.failures + self.rejected
    }

    /// These metrics with one more success.
    pub open spec fn with_success(self) -> Metrics {
        Metrics { successes: (self.successes + 1) as u64, ..self }
    }

    /// These metrics with one more failure.
    pub open spec fn with_failure(self) -> Metrics {
        Metrics { failures: (self.failures + 1) as u64, ..self }
    }

    /// These metrics with one more rejection.
    pub open spec fn with_rejection(self) -> Metrics {
        Metrics { rejected: (self.rejected + 1) as u64, ..self }
    }

    /// These metrics with a transition recorded at `time_secs`.
    pub open spec fn with_transition(self, time_secs: u64) -> Metrics {
        Metrics { last_transition_secs: Some(time_secs), ..self }
    }

    /// These metrics with `secs` more seconds spent open.
    pub open spec fn with_open_duration(self, secs: u64) -> Metrics {
        Metrics { total_open_duration_secs: (self.total_open_duration_secs + secs) as u64, ..self }
    }

    /// These metrics with one more transition to Open.
    pub open spec fn with_opened(self) -> Metrics {
        Metrics { opened_count: (self.opened_count + 1) as u64, ..self }
    }

    /// These metrics with one more transition to Closed.
    pub open spec fn with_closed(self) -> Metrics {
        Metrics { closed_count: (self.closed_count + 1) as u64, ..self }
    }

    /// These metrics with one more transition to HalfOpen.
    pub open spec fn with_half_opened(self) -> Metrics {
        Metrics { half_opened_count: (self.half_opened_count + 1) as u64, ..self }
    }

    /// Create a new zeroed metrics instance.
    pub fn new() -> (m: Self)
        ensures
            m == Metrics::zeroed(),
    {
        Metrics {
            successes: 0,
            failures: 0,
            rejected: 0,
            opened_count: 0,
            closed_count: 0,
            half_opened_count: 0,
            last_transition_secs: None,
            total_open_duration_secs: 0,
        }
    }

    /// Record a successful request.
    pub fn record_success(&mut self)
        requires
            old(self).successes < u64::MAX,
        ensures
            *final(self) == old(self).with_success(),
    {
        self.successes = self.successes + 1;
    }

    /// Record a failed request.
    pub fn record_failure(&mut self)
        requires
            old(self).failures < u64::MAX,
        ensures
            *final(self) == old(self).with_failure(),
    {
        self.failures = self.failures + 1;
    }

    /// Record a rejected request.
    pub fn record_rejected(&mut self)
        requires
            old(self).rejected < u64::MAX,
        ensures
            *final(self) == old(self).with_rejection(),
    {
        self.rejected = self.rejected + 1;
    }

    /// Record a transition to a state at the given time (epoch seconds).
    pub fn record_transition(&mut self, time_secs: u64)
        ensures
            *final(self) == old(self).with_transition(time_secs),
    {
        self.last_transition_secs = Some(time_secs);
    }

    /// Add open duration in seconds.
    pub fn add_open_duration(&mut self, secs: u64)
        requires
            old(self).total_open_duration_secs + secs <= u64::MAX,
        ensures
            *final(self) == old(self).with_open_duration(secs),
    {
        self.total_open_duration_secs = self.total_open_duration_secs + secs;
    }

    /// Increment the opened counter.
    pub fn increment_opened(&mut self)
        requires
            old(self).opened_count < u64::MAX,
        ensures
            *final(self) == old(self).with_opened(),
    {
        self.opened_count = self.opened_count + 1;
    }

    /// Increment the closed counter.
    pub fn increment_closed(&mut self)
        requires
            old(self).closed_count < u64::MAX,
        ensures
            *final(self) == old(self).with_closed(),
    {
        self.closed_count = self.closed_count + 1;
    }

    /// Increment the half-opened counter.
    pub fn increment_half_opened(&mut self)
        requires
            old(self).half_opened_count < u64::MAX,
        ensures
            *final(self) == old(self).with_half_opened(),
    {
        self.half_opened_count = self.half_opened_count + 1;
    }

    /// Total requests (successes + failures + rejected).
    pub fn total_requests(&self) -> (n: u64)
        requires
            self.spec_total_requests() <= u64::MAX,
        ensures
            n == self.spec_total_requests(),
    {
        self.successes + self.failures + self.rejected
    }

    /// Reset all counters.
    pub fn reset(&mut self)
        ensures
            *final(self) == Metrics::zeroed(),
    {
        *self = Metrics::new();
    }
}

impl Clone for Metrics {
    fn clone(&self) -> (m: Self)
        ensures
            m == *self,
    {
        Metrics {
            successes: self.successes,
            failures: self.failures,
            rejected: self.rejected,
            opened_count: self.opened_count,
            closed_count: self.closed_count,
            half_opened_count: self.half_opened_count,
            last_transition_secs: self.last_transition_secs,
            total_open_duration_secs: self.total_open_duration_secs,
        }
    }
}

impl Default for Metrics {
    fn default() -> (m: Self)
        ensures
            m == Metrics::zeroed(),
    {
        Metrics::new()
    }
}

} // verus!
