//! The circuit breaker itself.
//!
//! [`CircuitBreaker`] tracks failures and moves between
//! [`Closed`](crate::CircuitState::Closed), [`Open`](crate::CircuitState::Open)
//! and [`HalfOpen`](crate::CircuitState::HalfOpen). Its behavior is stated
//! over [`BreakerModel`], the plain value of all that the breaker holds: each
//! operation is a function from one model to the next.
use vstd::prelude::*;

use crate::config::Config;
use crate::metrics::Metrics;
use crate::state::CircuitState;

verus! {

/// Seconds from `since` to `now`, or zero where `now` lies before `since`.
pub open spec fn elapsed_secs(now: u64, since: u64) -> u64 {
    if now >= since {
        (now - since) as u64
    } else {
        0
    }
}

/// Everything a [`CircuitBreaker`] holds, as a plain value.
pub struct BreakerModel {
    /// The configuration the breaker was made with.
    pub config: Config,
    /// The current state.
    pub state: CircuitState,
    /// Failures in a row while closed.
    pub consecutive_failures: u32,
    /// Successes in a row (while closed, or while probing half-open).
    pub consecutive_successes: u32,
    /// Probe requests let through since the circuit became half-open.
    pub half_open_probes_used: u32,
    /// When the circuit last opened, while it is open or half-open.
    pub opened_at_secs: Option<u64>,
    /// The breaker's clock, in epoch seconds.
    pub current_time_secs: u64,
    /// The collected metrics.
    pub metrics: Metrics,
}

impl BreakerModel {
    /// A closed breaker with zero counters and metrics, its clock at `time_secs`.
    pub open spec fn initial(config: Config, time_secs: u64) -> BreakerModel {
        BreakerModel {
            config,
            state: CircuitState::Closed,
            consecutive_failures: 0,
            consecutive_successes: 0,
            half_open_probes_used: 0,
            opened_at_secs: None,
            current_time_secs: time_secs,
            metrics: Metrics::zeroed(),
        }
    }

    /// The invariant of the state machine.
    ///
    /// Closed: no opening time, no probes used, and the failure count below
    /// the threshold (or zero). Open: an opening time and all counters zero.
    /// HalfOpen: an opening time, no failures counted, the probes used within
    /// the budget and the success count below the threshold (or zero).
    pub open spec fn wf(self) -> bool {
        match self.state {
            CircuitState::Closed => {
                &&& self.opened_at_secs is None
                &&& self.half_open_probes_used == 0
                &&& (self.consecutive_failures == 0
                    || self.consecutive_failures < self.config.failure_threshold)
            },
            CircuitState::Open => {
                &&& self.opened_at_secs is Some
                &&& self.consecutive_failures == 0
                &&& self.consecutive_successes == 0
                &&& self.half_open_probes_used == 0
            },
            CircuitState::HalfOpen => {
                &&& self.opened_at_secs is Some
                &&& self.consecutive_failures == 0
                &&& self.half_open_probes_used <= self.config.half_open_max_probes
                &&& (self.consecutive_successes == 0
                    || self.consecutive_successes < self.config.success_threshold)
            },
        }
    }

    /// How long the circuit has been open, by the breaker's clock.
    pub open spec fn open_duration(self) -> u64 {
        match self.opened_at_secs {
            Some(opened_at) => elapsed_secs(self.current_time_secs, opened_at),
            None => 0,
        }
    }

    /// Moving to `s` overflows none of the metrics.
    pub open spec fn can_enter(self, s: CircuitState) -> bool {
        self.state != s ==> match s {
            CircuitState::Open => self.metrics.opened_count < u64::MAX,
            CircuitState::HalfOpen => {
                &&& self.metrics.half_opened_count < u64::MAX
                &&& self.metrics.total_open_duration_secs + self.open_duration() <= u64::MAX
            },
            CircuitState::Closed => self.metrics.closed_count < u64::MAX,
        }
    }

    /// The breaker after moving to state `s`: nothing changes if it is in
    /// `s` already; otherwise the transition time is recorded, the counter of
    /// entries into `s` grows by one, and the counters are cleared. Opening
    /// notes the time; half-opening adds the time spent open to the metrics;
    /// closing forgets the opening time.
    pub open spec fn enter(self, s: CircuitState) -> BreakerModel {
        if self.state == s {
            self
        } else {
            let now = self.current_time_secs;
            let m = self.metrics.with_transition(now);
            match s {
                CircuitState::Open => BreakerModel {
                    state: s,
                    opened_at_secs: Some(now),
                    consecutive_failures: 0,
                    consecutive_successes: 0,
                    half_open_probes_used: 0,
                    metrics: m.with_opened(),
                    ..self
                },
                CircuitState::HalfOpen => BreakerModel {
                    state: s,
                    consecutive_successes: 0,
                    half_open_probes_used: 0,
                    metrics: m.with_half_opened().with_open_duration(self.open_duration()),
                    ..self
                },
                CircuitState::Closed => BreakerModel {
                    state: s,
                    opened_at_secs: None,
                    consecutive_failures: 0,
                    consecutive_successes: 0,
                    half_open_probes_used: 0,
                    metrics: m.with_closed(),
                    ..self
                },
            }
        }
    }

    /// The circuit is open and the recovery timeout has elapsed.
    pub open spec fn recovery_due(self) -> bool {
        &&& self.state == CircuitState::Open
        &&& self.opened_at_secs is Some
        &&& self.open_duration() >= self.config.recovery_timeout_secs
    }

    /// The breaker after the check for recovery: half-open if recovery is
    /// due, unchanged otherwise.
    pub open spec fn refreshed(self) -> BreakerModel {
        if self.recovery_due() {
            self.enter(CircuitState::HalfOpen)
        } else {
            self
        }
    }

    /// A request arriving now would be let through.
    pub open spec fn lets_through(self) -> bool {
        let r = self.refreshed();
        r.state == CircuitState::Closed || (r.state == CircuitState::HalfOpen
            && r.half_open_probes_used < r.config.half_open_max_probes)
    }

    /// Deciding on a request overflows no counter.
    pub open spec fn can_decide(self) -> bool {
        &&& (self.recovery_due() ==> self.can_enter(CircuitState::HalfOpen))
        &&& (!self.lets_through() ==> self.refreshed().metrics.rejected < u64::MAX)
    }

    /// The breaker after a request is decided, and whether it is let
    /// through. Closed lets it through; half-open lets it through while
    /// probes remain, using one; otherwise it is rejected and counted.
    pub open spec fn decide(self) -> (BreakerModel, bool) {
        let r = self.refreshed();
        if r.state == CircuitState::Closed {
            (r, true)
        } else if self.lets_through() {
            (BreakerModel { half_open_probes_used: (r.half_open_probes_used + 1) as u32, ..r }, true)
        } else {
            (BreakerModel { metrics: r.metrics.with_rejection(), ..r }, false)
        }
    }

    /// Recording a success overflows no counter.
    pub open spec fn can_succeed(self) -> bool {
        &&& self.metrics.successes < u64::MAX
        &&& (self.state == CircuitState::Closed ==> self.consecutive_successes < u32::MAX)
        &&& (self.state == CircuitState::HalfOpen && self.consecutive_successes + 1
            >= self.config.success_threshold ==> self.metrics.closed_count < u64::MAX)
    }

    /// The breaker after a success is recorded. Closed clears the failure
    /// count; half-open counts the success and closes once the success
    /// threshold is reached; open changes nothing but the metrics.
    pub open spec fn succeed(self) -> BreakerModel {
        let b = BreakerModel { metrics: self.metrics.with_success(), ..self };
        match self.state {
            CircuitState::Closed => BreakerModel {
                consecutive_failures: 0,
                consecutive_successes: (self.consecutive_successes + 1) as u32,
                ..b
            },
            CircuitState::HalfOpen => {
                let h = BreakerModel {
                    consecutive_successes: (self.consecutive_successes + 1) as u32,
                    ..b
                };
                if h.consecutive_successes >= self.config.success_threshold {
                    h.enter(CircuitState::Closed)
                } else {
                    h
                }
            },
            CircuitState::Open => b,
        }
    }

    /// Recording a failure overflows no counter.
    pub open spec fn can_fail(self) -> bool {
        &&& self.metrics.failures < u64::MAX
        &&& ((self.state == CircuitState::Closed && self.consecutive_failures + 1
            >= self.config.failure_threshold) || self.state == CircuitState::HalfOpen
            ==> self.metrics.opened_count < u64::MAX)
    }

    /// The breaker after a failure is recorded. Closed counts the failure,
    /// ends any run of successes, and opens once the failure threshold is
    /// reached; half-open opens at once;
    /// open changes nothing but the metrics.
    pub open spec fn fail(self) -> BreakerModel {
        let b = BreakerModel { metrics: self.metrics.with_failure(), ..self };
        match self.state {
            CircuitState::Closed => {
                let c = BreakerModel {
                    consecutive_failures: (self.consecutive_failures + 1) as u32,
                    consecutive_successes: 0,
                    ..b
                };
                if c.consecutive_failures >= self.config.failure_threshold {
                    c.enter(CircuitState::Open)
                } else {
                    c
                }
            },
            CircuitState::HalfOpen => b.enter(CircuitState::Open),
            CircuitState::Open => b,
        }
    }

    /// The breaker after a reset: closed, counters cleared, no opening
    /// time; configuration, clock and metrics kept.
    pub open spec fn after_reset(self) -> BreakerModel {
        BreakerModel {
            state: CircuitState::Closed,
            consecutive_failures: 0,
            consecutive_successes: 0,
            half_open_probes_used: 0,
            opened_at_secs: None,
            ..self
        }
    }

    /// The breaker with its clock set to `secs`.
    pub open spec fn at_time(self, secs: u64) -> BreakerModel {
        BreakerModel { current_time_secs: secs, ..self }
    }

    /// The probes left of the half-open budget.
    pub open spec fn remaining_probes(self) -> u32 {
        if self.config.half_open_max_probes >= self.half_open_probes_used {
            (self.config.half_open_max_probes - self.half_open_probes_used) as u32
        } else {
            0
        }
    }
}

/// The state a [`CircuitBreaker`] carries, and the steps on it. The
/// breaker keeps it valid between calls.
#[derive(Debug)]
struct BreakerCore {
    config: Config,
    state: CircuitState,
    consecutive_failures: u32,
    consecutive_successes: u32,
    half_open_probes_used: u32,
    opened_at_secs: Option<u64>,
    current_time_secs: u64,
    metrics: Metrics,
}

impl View for BreakerCore {
    type V = BreakerModel;

    closed spec fn view(&self) -> BreakerModel {
        BreakerModel {
            config: self.config,
            state: self.state,
            consecutive_failures: self.consecutive_failures,
            consecutive_successes: self.consecutive_successes,
            half_open_probes_used: self.half_open_probes_used,
            opened_at_secs: self.opened_at_secs,
            current_time_secs: self.current_time_secs,
            metrics: self.metrics,
        }
    }
}

impl BreakerCore {
    fn new(config: Config, current_time_secs: u64) -> (core: Self)
        ensures
            core@ == BreakerModel::initial(config, current_time_secs),
    {
        BreakerCore {
            config,
            state: CircuitState::Closed,
            consecutive_failures: 0,
            consecutive_successes: 0,
            half_open_probes_used: 0,
            opened_at_secs: None,
            current_time_secs,
            metrics: Metrics::new(),
        }
    }

    fn duplicate(&self) -> (core: Self)
        ensures
            core@ == self@,
    {
        BreakerCore {
            config: self.config.clone(),
            state: self.state,
            consecutive_failures: self.consecutive_failures,
            consecutive_successes: self.consecutive_successes,
            half_open_probes_used: self.half_open_probes_used,
            opened_at_secs: self.opened_at_secs,
            current_time_secs: self.current_time_secs,
            metrics: self.metrics.clone(),
        }
    }

    fn allow_request(&mut self) -> (allowed: bool)
        requires
            old(self)@.wf(),
            old(self)@.can_decide(),
        ensures
            (final(self)@, allowed) == old(self)@.decide(),
    {
        self.maybe_transition_open_to_half_open();
        match self.state {
            CircuitState::Closed => true,
            CircuitState::Open => {
                self.metrics.record_rejected();
                false
            },
            CircuitState::HalfOpen => {
                if self.half_open_probes_used < self.config.half_open_max_probes {
                    self.half_open_probes_used = self.half_open_probes_used + 1;
                    true
                } else {
                    self.metrics.record_rejected();
                    false
                }
            },
        }
    }

    fn record_success(&mut self)
        requires
            old(self)@.wf(),
            old(self)@.can_succeed(),
        ensures
            final(self)@ == old(self)@.succeed(),
    {
        self.metrics.record_success();
        match self.state {
            CircuitState::Closed => {
                self.consecutive_failures = 0;
                self.consecutive_successes = self.consecutive_successes + 1;
            },
            CircuitState::HalfOpen => {
                self.consecutive_successes = self.consecutive_successes + 1;
                if self.consecutive_successes >= self.config.success_threshold {
                    self.transition_to(CircuitState::Closed);
                }
            },
            CircuitState::Open => {},
        }
    }

    fn record_failure(&mut self)
        requires
            old(self)@.wf(),
            old(self)@.can_fail(),
        ensures
            final(self)@ == old(self)@.fail(),
    {
        self.metrics.record_failure();
        match self.state {
            CircuitState::Closed => {
                self.consecutive_successes = 0;
                self.consecutive_failures = self.consecutive_failures + 1;
                if self.consecutive_failures >= self.config.failure_threshold {
                    self.transition_to(CircuitState::Open);
                }
            },
            CircuitState::HalfOpen => {
                self.transition_to(CircuitState::Open);
            },
            CircuitState::Open => {},
        }
    }

    fn reset(&mut self)
        ensures
            final(self)@ == old(self)@.after_reset(),
    {
        self.state = CircuitState::Closed;
        self.consecutive_failures = 0;
        self.consecutive_successes = 0;
        self.half_open_probes_used = 0;
        self.opened_at_secs = None;
    }

    fn transition_to(&mut self, new_state: CircuitState)
        requires
            old(self)@.can_enter(new_state),
        ensures
            final(self)@ == old(self)@.enter(new_state),
    {
        if self.state == new_state {
            return;
        }
        self.state = new_state;
        self.metrics.record_transition(self.current_time_secs);
        match new_state {
            CircuitState::Open => {
                self.opened_at_secs = Some(self.current_time_secs);
                self.metrics.increment_opened();
                self.consecutive_failures = 0;
                self.consecutive_successes = 0;
                self.half_open_probes_used = 0;
            },
            CircuitState::HalfOpen => {
                self.metrics.increment_half_opened();
                if let Some(opened_at) = self.opened_at_secs {
                    let duration = self.current_time_secs.saturating_sub(opened_at);
                    self.metrics.add_open_duration(duration);
                }
                self.consecutive_successes = 0;
                self.half_open_probes_used = 0;
            },
            CircuitState::Closed => {
                self.metrics.increment_closed();
                self.consecutive_failures = 0;
                self.consecutive_successes = 0;
                self.half_open_probes_used = 0;
                self.opened_at_secs = None;
            },
        }
    }

    fn maybe_transition_open_to_half_open(&mut self)
        requires
            old(self)@.recovery_due() ==> old(self)@.can_enter(CircuitState::HalfOpen),
        ensures
            final(self)@ == old(self)@.refreshed(),
    {
        if self.state != CircuitState::Open {
            return;
        }
        if let Some(opened_at) = self.opened_at_secs {
            let elapsed = self.current_time_secs.saturating_sub(opened_at);
            if elapsed >= self.config.recovery_timeout_secs {
                self.transition_to(CircuitState::HalfOpen);
            }
        }
    }
}

/// A circuit breaker that protects against cascading failures.
///
/// - **Closed → Open**: when consecutive failures reach the failure threshold.
/// - **Open → HalfOpen**: when the recovery timeout has elapsed (checked as a
///   request arrives).
/// - **HalfOpen → Closed**: when consecutive successes reach the success threshold.
/// - **HalfOpen → Open**: when any failure occurs during probing.
///
/// The clock is the breaker's own: set it with [`CircuitBreaker::with_time`],
/// [`CircuitBreaker::advance_time`] and [`CircuitBreaker::set_time`].
///
/// Every breaker satisfies [`BreakerModel::wf`]: it is the type's invariant.
#[derive(Debug)]
pub struct CircuitBreaker {
    core: BreakerCore,
}

impl View for CircuitBreaker {
    type V = BreakerModel;

    closed spec fn view(&self) -> BreakerModel {
        self.core@
    }
}

impl Clone for CircuitBreaker {
    /// A breaker in the same state, with the same configuration, clock and
    /// metrics.
    fn clone(&self) -> (cb: Self)
        ensures
            cb@ == self@,
    {
        proof {
            use_type_invariant(self);
        }
        CircuitBreaker { core: self.core.duplicate() }
    }
}

impl CircuitBreaker {
    #[verifier::type_invariant]
    spec fn is_valid(self) -> bool {
        self.core@.wf()
    }

    /// Takes the state out for a step, leaving a fresh breaker in its place
    /// until the state is put back.
    fn take_core(&mut self) -> (core: BreakerCore)
        ensures
            core@ == old(self)@,
            core@.wf(),
    {
        proof {
            use_type_invariant(&*self);
        }
        let mut core = BreakerCore::new(Config::default(), 0);
        std::mem::swap(&mut self.core, &mut core);
        core
    }

    /// Create a new circuit breaker with the given configuration, its clock
    /// at zero.
    pub fn new(config: Config) -> (cb: Self)
        ensures
            cb@ == BreakerModel::initial(config, 0),
            cb@.wf(),
    {
        CircuitBreaker { core: BreakerCore::new(config, 0) }
    }

    /// Create a circuit breaker with its clock at `current_time_secs`.
    pub fn with_time(config: Config, current_time_secs: u64) -> (cb: Self)
        ensures
            cb@ == BreakerModel::initial(config, current_time_secs),
            cb@.wf(),
    {
        let mut cb = Self::new(config);
        cb.core.current_time_secs = current_time_secs;
        cb
    }

    /// Advance the internal clock by `secs` seconds.
    pub fn advance_time(&mut self, secs: u64)
        requires
            old(self)@.current_time_secs + secs <= u64::MAX,
        ensures
            final(self)@ == old(self)@.at_time((old(self)@.current_time_secs + secs) as u64),
            final(self)@.wf(),
    {
        proof {
            use_type_invariant(&*self);
        }
        self.core.current_time_secs = self.core.current_time_secs + secs;
    }

    /// Set the internal clock to a specific epoch second.
    pub fn set_time(&mut self, secs: u64)
        ensures
            final(self)@ == old(self)@.at_time(secs),
            final(self)@.wf(),
    {
        proof {
            use_type_invariant(&*self);
        }
        self.core.current_time_secs = secs;
    }

    /// Get the current circuit state.
    pub fn state(&self) -> (s: CircuitState)
        ensures
            s == self@.state,
            self@.wf(),
    {
        proof {
            use_type_invariant(self);
        }
        self.core.state
    }

    /// Get a reference to the collected metrics.
    pub fn metrics(&self) -> (m: &Metrics)
        ensures
            *m == self@.metrics,
    {
        &self.core.metrics
    }

    /// Get a reference to the configuration.
    pub fn config(&self) -> (c: &Config)
        ensures
            *c == self@.config,
    {
        &self.core.config
    }

    /// Determine whether a request should be allowed.
    ///
    /// If the recovery timeout has elapsed while open, the breaker first
    /// becomes half-open. Then a request is allowed when closed, or when
    /// half-open with probe budget left (using one probe); otherwise it is
    /// rejected and counted in the metrics.
    pub fn allow_request(&mut self) -> (allowed: bool)
        requires
            old(self)@.can_decide(),
        ensures
            (final(self)@, allowed) == old(self)@.decide(),
            final(self)@.wf(),
    {
        let mut core = self.take_core();
        let allowed = core.allow_request();
        self.core = core;
        allowed
    }

    /// Record a successful operation.
    ///
    /// Closed: clears the failure count and counts the success. HalfOpen:
    /// counts the success and closes at the success threshold. Open: only
    /// the metrics change.
    pub fn record_success(&mut self)
        requires
            old(self)@.can_succeed(),
        ensures
            final(self)@ == old(self)@.succeed(),
            final(self)@.wf(),
    {
        let mut core = self.take_core();
        core.record_success();
        self.core = core;
    }

    /// Record a failed operation.
    ///
    /// Closed: counts the failure, clears the success count, and opens at
    /// the failure threshold. HalfOpen: opens at once. Open: only the
    /// metrics change.
    pub fn record_failure(&mut self)
        requires
            old(self)@.can_fail(),
        ensures
            final(self)@ == old(self)@.fail(),
            final(self)@.wf(),
    {
        let mut core = self.take_core();
        core.record_failure();
        self.core = core;
    }

    /// Reset the circuit breaker to **Closed** state, clearing all counters.
    /// The metrics and the clock are kept.
    pub fn reset(&mut self)
        ensures
            final(self)@ == old(self)@.after_reset(),
            final(self)@.wf(),
    {
        let mut core = self.take_core();
        core.reset();
        self.core = core;
    }

    /// Get the current consecutive failure count.
    pub fn consecutive_failures(&self) -> (n: u32)
        ensures
            n == self@.consecutive_failures,
    {
        self.core.consecutive_failures
    }

    /// Get the current consecutive success count.
    pub fn consecutive_successes(&self) -> (n: u32)
        ensures
            n == self@.consecutive_successes,
    {
        self.core.consecutive_successes
    }

    /// Get remaining half-open probe budget.
    pub fn remaining_probes(&self) -> (n: u32)
        ensures
            n == self@.remaining_probes(),
    {
        self.core.config.half_open_max_probes.saturating_sub(self.core.half_open_probes_used)
    }
}

} // verus!
