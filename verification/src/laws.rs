//! Laws of the circuit breaker: what holds of every state and of runs of
//! several operations, stated over [`BreakerModel`].
use vstd::prelude::*;

use crate::breaker::{elapsed_secs, BreakerModel};
use crate::metrics::Metrics;
use crate::config::Config;
use crate::state::CircuitState;

verus! {

/// The breaker after `n` failures in a row.
pub open spec fn fail_times(m: BreakerModel, n: nat) -> BreakerModel
    decreases n,
{
    if n == 0 {
        m
    } else {
        fail_times(m.fail(), (n - 1) as nat)
    }
}

/// The breaker after `n` successes in a row.
pub open spec fn succeed_times(m: BreakerModel, n: nat) -> BreakerModel
    decreases n,
{
    if n == 0 {
        m
    } else {
        succeed_times(m.succeed(), (n - 1) as nat)
    }
}

/// The breaker after `n` requests in a row are decided, the clock standing still.
pub open spec fn decide_times(m: BreakerModel, n: nat) -> BreakerModel
    decreases n,
{
    if n == 0 {
        m
    } else {
        decide_times(m.decide().0, (n - 1) as nat)
    }
}

/// How many of `n` requests in a row are let through, the clock standing still.
pub open spec fn allowed_times(m: BreakerModel, n: nat) -> nat
    decreases n,
{
    if n == 0 {
        0
    } else {
        (if m.decide().1 { 1nat } else { 0nat }) + allowed_times(m.decide().0, (n - 1) as nat)
    }
}

/// A new breaker is in a valid state, and every operation keeps the
/// invariant of the state machine: deciding on a request, recording a
/// success or a failure, resetting, and moving the clock.
pub proof fn lemma_operations_keep_invariant(m: BreakerModel, config: Config, secs: u64)
    requires
        m.wf(),
    ensures
        BreakerModel::initial(config, secs).wf(),
        m.refreshed().wf(),
        m.decide().0.wf(),
        m.succeed().wf(),
        m.fail().wf(),
        m.after_reset().wf(),
        m.at_time(secs).wf(),
{
}

/// A recorded success in the closed state clears the failure count, so only
/// failures in a row count toward tripping.
pub proof fn lemma_success_clears_failures(m: BreakerModel)
    requires
        m.wf(),
        m.state == CircuitState::Closed,
    ensures
        m.succeed().state == CircuitState::Closed,
        m.succeed().consecutive_failures == 0,
{
}

/// A recorded failure ends any run of successes: afterwards the success
/// count is zero, whatever the state was.
pub proof fn lemma_failure_clears_successes(m: BreakerModel)
    requires
        m.wf(),
    ensures
        m.fail().consecutive_successes == 0,
{
}

/// An open breaker stays open, whatever failures are recorded.
pub proof fn lemma_open_stays_open_on_failures(m: BreakerModel, n: nat)
    requires
        m.state == CircuitState::Open,
    ensures
        fail_times(m, n).state == CircuitState::Open,
        fail_times(m, n).config == m.config,
    decreases n,
{
    if n > 0 {
        lemma_open_stays_open_on_failures(m.fail(), (n - 1) as nat);
    }
}

/// From a closed breaker that has counted `c` failures, `n` more failures
/// in a row open it exactly when `c + n` reaches the failure threshold.
pub proof fn lemma_failures_in_a_row(m: BreakerModel, n: nat)
    requires
        m.wf(),
        m.state == CircuitState::Closed,
        n > 0 || m.config.failure_threshold > 0,
    ensures
        fail_times(m, n).state == (if m.consecutive_failures + n < m.config.failure_threshold {
            CircuitState::Closed
        } else {
            CircuitState::Open
        }),
        m.consecutive_failures + n < m.config.failure_threshold
            ==> fail_times(m, n).consecutive_failures == m.consecutive_failures + n,
    decreases n,
{
    if n > 0 {
        let f = m.fail();
        if f.state == CircuitState::Open {
            lemma_open_stays_open_on_failures(f, (n - 1) as nat);
        } else {
            lemma_failures_in_a_row(f, (n - 1) as nat);
        }
    }
}

/// The circuit trips on the failure threshold: from a closed breaker with no
/// failures counted, fewer failures in a row than the threshold keep it
/// closed, and the threshold's worth (or more) opens it. (With a threshold
/// of zero, a breaker that has seen no failure yet is still closed.)
pub proof fn lemma_trips_at_failure_threshold(m: BreakerModel, n: nat)
    requires
        m.wf(),
        m.state == CircuitState::Closed,
        m.consecutive_failures == 0,
        n > 0 || m.config.failure_threshold > 0,
    ensures
        n < m.config.failure_threshold ==> fail_times(m, n).state == CircuitState::Closed,
        n >= m.config.failure_threshold ==> fail_times(m, n).state == CircuitState::Open,
{
    lemma_failures_in_a_row(m, n);
}

/// An open breaker rejects every request until the recovery timeout has
/// elapsed: the request is refused, counted as rejected, and nothing else
/// changes.
pub proof fn lemma_open_rejects_before_timeout(m: BreakerModel)
    requires
        m.wf(),
        m.state == CircuitState::Open,
        m.open_duration() < m.config.recovery_timeout_secs,
    ensures
        m.decide() == (BreakerModel { metrics: m.metrics.with_rejection(), ..m }, false),
{
}

/// Once the recovery timeout has elapsed, the next request finds the breaker
/// half-open: it is let through as the first probe (where the probe budget
/// is positive), and the time spent open is added to the metrics.
pub proof fn lemma_recovers_after_timeout(m: BreakerModel)
    requires
        m.wf(),
        m.state == CircuitState::Open,
        m.open_duration() >= m.config.recovery_timeout_secs,
        m.config.half_open_max_probes > 0,
    ensures
        m.decide().1,
        m.decide().0.state == CircuitState::HalfOpen,
        m.decide().0.half_open_probes_used == 1,
        m.can_decide() ==> m.decide().0.metrics.half_opened_count
            == m.metrics.half_opened_count + 1,
        m.can_decide() ==> m.decide().0.metrics.total_open_duration_secs
            == m.metrics.total_open_duration_secs + m.open_duration(),
{
}

/// A half-open breaker keeps its state while only requests are decided.
proof fn lemma_half_open_decisions_keep_state(m: BreakerModel)
    requires
        m.wf(),
        m.state == CircuitState::HalfOpen,
    ensures
        m.refreshed() == m,
        m.decide().0.state == CircuitState::HalfOpen,
        m.decide().0.config == m.config,
        m.decide().0.wf(),
        m.decide().1 ==> m.decide().0.half_open_probes_used == m.half_open_probes_used + 1,
        !m.decide().1 ==> m.decide().0.half_open_probes_used == m.half_open_probes_used,
        m.decide().1 <==> m.half_open_probes_used < m.config.half_open_max_probes,
{
}

/// The probe budget holds: of `n` requests in a row to a half-open breaker,
/// exactly as many are let through as probes remain (or `n`, if fewer), and
/// the breaker stays half-open.
pub proof fn lemma_probe_budget(m: BreakerModel, n: nat)
    requires
        m.wf(),
        m.state == CircuitState::HalfOpen,
    ensures
        allowed_times(m, n) == (if n < m.remaining_probes() { n } else { m.remaining_probes() as nat }),
        decide_times(m, n).state == CircuitState::HalfOpen,
    decreases n,
{
    if n > 0 {
        lemma_half_open_decisions_keep_state(m);
        lemma_probe_budget(m.decide().0, (n - 1) as nat);
    }
}

/// Any failure while half-open opens the circuit again, noting the time.
pub proof fn lemma_half_open_failure_reopens(m: BreakerModel)
    requires
        m.wf(),
        m.state == CircuitState::HalfOpen,
        m.can_fail(),
    ensures
        m.fail().state == CircuitState::Open,
        m.fail().opened_at_secs == Some(m.current_time_secs),
        m.fail().metrics.opened_count == m.metrics.opened_count + 1,
{
}

/// A closed breaker stays closed, whatever successes are recorded.
pub proof fn lemma_closed_stays_closed_on_successes(m: BreakerModel, n: nat)
    requires
        m.state == CircuitState::Closed,
    ensures
        succeed_times(m, n).state == CircuitState::Closed,
    decreases n,
{
    if n > 0 {
        lemma_closed_stays_closed_on_successes(m.succeed(), (n - 1) as nat);
    }
}

/// From a half-open breaker that has counted `c` successes, `n` more
/// successes in a row close it exactly when `c + n` reaches the success
/// threshold.
pub proof fn lemma_successes_in_a_row(m: BreakerModel, n: nat)
    requires
        m.wf(),
        m.state == CircuitState::HalfOpen,
        n > 0 || m.config.success_threshold > 0,
    ensures
        succeed_times(m, n).state == (if m.consecutive_successes + n
            < m.config.success_threshold {
            CircuitState::HalfOpen
        } else {
            CircuitState::Closed
        }),
    decreases n,
{
    if n > 0 {
        let s = m.succeed();
        if s.state == CircuitState::Closed {
            lemma_closed_stays_closed_on_successes(s, (n - 1) as nat);
        } else {
            lemma_successes_in_a_row(s, (n - 1) as nat);
        }
    }
}

/// The circuit closes on the success threshold: from a breaker that has
/// just become half-open, fewer successes in a row than the threshold keep
/// it half-open, and the threshold's worth (or more) closes it. (With a
/// threshold of zero, it closes on the first success.)
pub proof fn lemma_closes_at_success_threshold(m: BreakerModel, n: nat)
    requires
        m.wf(),
        m.state == CircuitState::HalfOpen,
        m.consecutive_successes == 0,
        n > 0 || m.config.success_threshold > 0,
    ensures
        n < m.config.success_threshold ==> succeed_times(m, n).state == CircuitState::HalfOpen,
        n >= m.config.success_threshold ==> succeed_times(m, n).state == CircuitState::Closed,
{
    lemma_successes_in_a_row(m, n);
}

/// A request is let through only in a state that allows requests, and
/// never by an open breaker.
pub proof fn lemma_allowed_only_where_state_allows(m: BreakerModel)
    requires
        m.wf(),
    ensures
        m.decide().1 ==> m.decide().0.state.spec_allows_requests(),
        m.decide().0.state == CircuitState::Open ==> !m.decide().1,
        m.state == CircuitState::Closed ==> m.decide() == (m, true),
{
}

/// Every operation counts once in the metrics: a refused request in
/// `rejected`, a success in `successes`, a failure in `failures`; so each
/// grows `total_requests` by one, except a request let through.
pub proof fn lemma_each_operation_counts_once(m: BreakerModel)
    requires
        m.wf(),
    ensures
        m.can_decide() ==> m.decide().0.metrics.rejected == m.metrics.rejected + (if m.decide().1 {
            0int
        } else {
            1int
        }),
        m.decide().0.metrics.successes == m.metrics.successes,
        m.decide().0.metrics.failures == m.metrics.failures,
        m.can_succeed() ==> m.succeed().metrics.successes == m.metrics.successes + 1,
        m.succeed().metrics.failures == m.metrics.failures,
        m.succeed().metrics.rejected == m.metrics.rejected,
        m.can_fail() ==> m.fail().metrics.failures == m.metrics.failures + 1,
        m.fail().metrics.successes == m.metrics.successes,
        m.fail().metrics.rejected == m.metrics.rejected,
        m.can_succeed() ==> m.succeed().metrics.spec_total_requests()
            == m.metrics.spec_total_requests() + 1,
        m.can_fail() ==> m.fail().metrics.spec_total_requests()
            == m.metrics.spec_total_requests() + 1,
{
}

/// `opened_count` counts the entries into the open state: a failure adds one
/// exactly when it opens a circuit that was not open.
pub proof fn lemma_opened_count_counts_openings(m: BreakerModel)
    requires
        m.wf(),
        m.can_fail(),
    ensures
        m.fail().metrics.opened_count == m.metrics.opened_count + (if m.state
            != CircuitState::Open && m.fail().state == CircuitState::Open {
            1int
        } else {
            0int
        }),
        m.succeed().metrics.opened_count == m.metrics.opened_count,
        m.decide().0.metrics.opened_count == m.metrics.opened_count,
{
}

/// A reset closes the circuit and clears its counters, keeps the metrics,
/// configuration and clock, and lets the next request through.
pub proof fn lemma_reset_closes(m: BreakerModel)
    ensures
        m.after_reset().state == CircuitState::Closed,
        m.after_reset().wf(),
        m.after_reset().metrics == m.metrics,
        m.after_reset().config == m.config,
        m.after_reset().current_time_secs == m.current_time_secs,
        m.after_reset().consecutive_failures == 0,
        m.after_reset().consecutive_successes == 0,
        m.after_reset().half_open_probes_used == 0,
        m.after_reset().opened_at_secs is None,
        m.after_reset().decide() == (m.after_reset(), true),
{
}

/// After a reset the failure count starts afresh: with a failure threshold
/// above one, the first failure leaves the breaker closed with one failure
/// counted, whatever was counted before the reset.
pub proof fn lemma_reset_restarts_failure_count(m: BreakerModel)
    requires
        m.config.failure_threshold > 1,
    ensures
        m.after_reset().fail().state == CircuitState::Closed,
        m.after_reset().fail().consecutive_failures == 1,
        m.after_reset().fail().consecutive_successes == 0,
{
}

/// The metrics agree on everything but the three request counters.
pub open spec fn same_but_request_counts(a: Metrics, b: Metrics) -> bool {
    &&& a.opened_count == b.opened_count
    &&& a.closed_count == b.closed_count
    &&& a.half_opened_count == b.half_opened_count
    &&& a.last_transition_secs == b.last_transition_secs
    &&& a.total_open_duration_secs == b.total_open_duration_secs
}

/// Setting the clock sets it to the given second, in every state, and
/// changes nothing else.
pub proof fn lemma_setting_the_clock(m: BreakerModel, secs: u64)
    ensures
        m.at_time(secs).current_time_secs == secs,
        m.at_time(secs).state == m.state,
        m.at_time(secs).config == m.config,
        m.at_time(secs).consecutive_failures == m.consecutive_failures,
        m.at_time(secs).consecutive_successes == m.consecutive_successes,
        m.at_time(secs).half_open_probes_used == m.half_open_probes_used,
        m.at_time(secs).opened_at_secs == m.opened_at_secs,
        m.at_time(secs).metrics == m.metrics,
{
}

/// What deciding on a request does, over all valid states.
///
/// It never touches the failure and success counts, the configuration, the
/// clock, the opening time, or any metric but `rejected` and those of a
/// half-opening. It lets the request through exactly when the breaker is
/// closed, half-open with probes left, or open with the recovery timeout
/// elapsed (counted from the opening time) and a positive probe budget. A
/// closed or half-open breaker keeps its state; an open one half-opens
/// exactly when the timeout has elapsed. A request let through while
/// half-open uses one probe; a refused one is counted as rejected.
pub proof fn lemma_what_deciding_does(m: BreakerModel)
    requires
        m.wf(),
        m.can_decide(),
    ensures
        m.decide().0.consecutive_successes == m.consecutive_successes,
        m.decide().0.consecutive_failures == m.consecutive_failures,
        m.decide().0.config == m.config,
        m.decide().0.current_time_secs == m.current_time_secs,
        m.decide().0.opened_at_secs == m.opened_at_secs,
        m.decide().0.metrics.successes == m.metrics.successes,
        m.decide().0.metrics.failures == m.metrics.failures,
        m.decide().0.metrics.opened_count == m.metrics.opened_count,
        m.decide().0.metrics.closed_count == m.metrics.closed_count,
        m.decide().1 <==> {
            ||| m.state == CircuitState::Closed
            ||| (m.state == CircuitState::HalfOpen && m.half_open_probes_used
                < m.config.half_open_max_probes)
            ||| (m.state == CircuitState::Open && m.config.half_open_max_probes > 0 && (
            m.opened_at_secs matches Some(t) && elapsed_secs(m.current_time_secs, t)
                >= m.config.recovery_timeout_secs))
        },
        m.state != CircuitState::Open ==> m.decide().0.state == m.state,
        m.state == CircuitState::Open ==> (m.decide().0.state == CircuitState::HalfOpen <==> (
        m.opened_at_secs matches Some(t) && elapsed_secs(m.current_time_secs, t)
            >= m.config.recovery_timeout_secs)),
        m.state == CircuitState::Open ==> (m.decide().0.state == CircuitState::Open
            || m.decide().0.state == CircuitState::HalfOpen),
        m.state == CircuitState::Open && m.decide().0.state == CircuitState::Open ==> {
            &&& m.decide().0.half_open_probes_used == 0
            &&& m.decide().0.metrics.half_opened_count == m.metrics.half_opened_count
            &&& m.decide().0.metrics.total_open_duration_secs
                == m.metrics.total_open_duration_secs
        },
        m.decide().0.state == CircuitState::HalfOpen ==> m.decide().0.half_open_probes_used == (
        if m.state == CircuitState::HalfOpen {
            m.half_open_probes_used as int
        } else {
            0int
        }) + (if m.decide().1 {
            1int
        } else {
            0int
        }),
        m.decide().0.metrics.rejected == m.metrics.rejected + (if m.decide().1 {
            0int
        } else {
            1int
        }),
{
}

/// A half-open breaker closes on the success threshold however successes
/// and requests are interleaved: deciding on a request between two
/// successes does not change the success count.
pub proof fn lemma_requests_between_successes(m: BreakerModel)
    requires
        m.wf(),
        m.state == CircuitState::HalfOpen,
    ensures
        m.decide().0.state == CircuitState::HalfOpen,
        m.decide().0.consecutive_successes == m.consecutive_successes,
        m.decide().0.succeed().state == m.succeed().state,
        m.decide().0.succeed().consecutive_successes == m.succeed().consecutive_successes,
{
}

/// What recording a failure does, over all valid states.
///
/// It never touches the configuration, the clock, or the `successes` and
/// `rejected` metrics, and always clears the success count. While closed it
/// counts the failure, and opens (noting the time, clearing the count) on
/// the failure threshold. While half-open it opens at once, noting the
/// time. While open it changes nothing but the `failures` metric: the
/// opening time in particular is kept.
pub proof fn lemma_what_a_failure_does(m: BreakerModel)
    requires
        m.wf(),
        m.can_fail(),
    ensures
        m.fail().config == m.config,
        m.fail().current_time_secs == m.current_time_secs,
        m.fail().consecutive_successes == 0,
        m.fail().metrics.failures == m.metrics.failures + 1,
        m.fail().metrics.successes == m.metrics.successes,
        m.fail().metrics.rejected == m.metrics.rejected,
        m.state == CircuitState::Closed && m.consecutive_failures + 1
            < m.config.failure_threshold ==> {
            &&& m.fail().state == CircuitState::Closed
            &&& m.fail().consecutive_failures == m.consecutive_failures + 1
            &&& m.fail().opened_at_secs == m.opened_at_secs
            &&& m.fail().half_open_probes_used == m.half_open_probes_used
            &&& same_but_request_counts(m.fail().metrics, m.metrics)
        },
        (m.state == CircuitState::Closed && m.consecutive_failures + 1
            >= m.config.failure_threshold) || m.state == CircuitState::HalfOpen ==> {
            &&& m.fail().state == CircuitState::Open
            &&& m.fail().opened_at_secs == Some(m.current_time_secs)
            &&& m.fail().consecutive_failures == 0
            &&& m.fail().half_open_probes_used == 0
            &&& m.fail().metrics.opened_count == m.metrics.opened_count + 1
            &&& m.fail().metrics.last_transition_secs == Some(m.current_time_secs)
        },
        m.state == CircuitState::Open ==> {
            &&& m.fail().state == CircuitState::Open
            &&& m.fail().opened_at_secs == m.opened_at_secs
            &&& m.fail().consecutive_failures == m.consecutive_failures
            &&& m.fail().half_open_probes_used == m.half_open_probes_used
            &&& same_but_request_counts(m.fail().metrics, m.metrics)
        },
{
}

/// What recording a success does, over all valid states.
///
/// It never touches the configuration, the clock, or the `failures` and
/// `rejected` metrics. While closed it clears the failure count and counts
/// the success. While half-open it counts the success, and closes (clearing
/// the counts and the opening time) on the success threshold. While open it
/// changes nothing but the `successes` metric: the opening time in
/// particular is kept.
pub proof fn lemma_what_a_success_does(m: BreakerModel)
    requires
        m.wf(),
        m.can_succeed(),
    ensures
        m.succeed().config == m.config,
        m.succeed().current_time_secs == m.current_time_secs,
        m.succeed().metrics.successes == m.metrics.successes + 1,
        m.succeed().metrics.failures == m.metrics.failures,
        m.succeed().metrics.rejected == m.metrics.rejected,
        m.state == CircuitState::Closed ==> {
            &&& m.succeed().state == CircuitState::Closed
            &&& m.succeed().consecutive_failures == 0
            &&& m.succeed().consecutive_successes == m.consecutive_successes + 1
            &&& m.succeed().opened_at_secs == m.opened_at_secs
            &&& m.succeed().half_open_probes_used == m.half_open_probes_used
            &&& same_but_request_counts(m.succeed().metrics, m.metrics)
        },
        m.state == CircuitState::HalfOpen && m.consecutive_successes + 1
            < m.config.success_threshold ==> {
            &&& m.succeed().state == CircuitState::HalfOpen
            &&& m.succeed().consecutive_successes == m.consecutive_successes + 1
            &&& m.succeed().consecutive_failures == m.consecutive_failures
            &&& m.succeed().opened_at_secs == m.opened_at_secs
            &&& m.succeed().half_open_probes_used == m.half_open_probes_used
            &&& same_but_request_counts(m.succeed().metrics, m.metrics)
        },
        m.state == CircuitState::HalfOpen && m.consecutive_successes + 1
            >= m.config.success_threshold ==> {
            &&& m.succeed().state == CircuitState::Closed
            &&& m.succeed().consecutive_successes == 0
            &&& m.succeed().consecutive_failures == 0
            &&& m.succeed().half_open_probes_used == 0
            &&& m.succeed().opened_at_secs is None
            &&& m.succeed().metrics.closed_count == m.metrics.closed_count + 1
            &&& m.succeed().metrics.last_transition_secs == Some(m.current_time_secs)
        },
        m.state == CircuitState::Open ==> {
            &&& m.succeed().state == CircuitState::Open
            &&& m.succeed().opened_at_secs == m.opened_at_secs
            &&& m.succeed().consecutive_failures == m.consecutive_failures
            &&& m.succeed().consecutive_successes == m.consecutive_successes
            &&& m.succeed().half_open_probes_used == m.half_open_probes_used
            &&& same_but_request_counts(m.succeed().metrics, m.metrics)
        },
{
}

/// The default configuration is valid: validation accepts it.
pub proof fn lemma_default_config_is_valid()
    ensures
        Config::spec_default().is_valid(),
        Config::spec_default().spec_validate() == Ok::<(), crate::config::ConfigError>(()),
{
}

/// Each recording step of the metrics adds one to its own counter (or the
/// given seconds to the open duration, or notes the transition time) and
/// leaves every other field as it was; the zeroed metrics count nothing.
pub proof fn lemma_metrics_steps(m: Metrics, secs: u64)
    requires
        m.successes < u64::MAX,
        m.failures < u64::MAX,
        m.rejected < u64::MAX,
        m.opened_count < u64::MAX,
        m.closed_count < u64::MAX,
        m.half_opened_count < u64::MAX,
        m.total_open_duration_secs + secs <= u64::MAX,
    ensures
        m.with_success().successes == m.successes + 1,
        m.with_success().failures == m.failures && m.with_success().rejected == m.rejected,
        same_but_request_counts(m.with_success(), m),
        m.with_failure().failures == m.failures + 1,
        m.with_failure().successes == m.successes && m.with_failure().rejected == m.rejected,
        same_but_request_counts(m.with_failure(), m),
        m.with_rejection().rejected == m.rejected + 1,
        m.with_rejection().successes == m.successes && m.with_rejection().failures == m.failures,
        same_but_request_counts(m.with_rejection(), m),
        m.with_opened().opened_count == m.opened_count + 1,
        m.with_opened().closed_count == m.closed_count,
        m.with_opened().half_opened_count == m.half_opened_count,
        m.with_opened().spec_total_requests() == m.spec_total_requests(),
        m.with_closed().closed_count == m.closed_count + 1,
        m.with_closed().opened_count == m.opened_count,
        m.with_closed().half_opened_count == m.half_opened_count,
        m.with_closed().spec_total_requests() == m.spec_total_requests(),
        m.with_half_opened().half_opened_count == m.half_opened_count + 1,
        m.with_half_opened().opened_count == m.opened_count,
        m.with_half_opened().closed_count == m.closed_count,
        m.with_half_opened().spec_total_requests() == m.spec_total_requests(),
        m.with_open_duration(secs).total_open_duration_secs == m.total_open_duration_secs + secs,
        m.with_open_duration(secs).last_transition_secs == m.last_transition_secs,
        m.with_open_duration(secs).spec_total_requests() == m.spec_total_requests(),
        m.with_transition(secs).last_transition_secs == Some(secs),
        m.with_transition(secs).total_open_duration_secs == m.total_open_duration_secs,
        m.with_transition(secs).spec_total_requests() == m.spec_total_requests(),
        Metrics::zeroed().spec_total_requests() == 0,
        Metrics::zeroed().opened_count == 0 && Metrics::zeroed().closed_count == 0,
        Metrics::zeroed().half_opened_count == 0,
        Metrics::zeroed().last_transition_secs is None,
        Metrics::zeroed().total_open_duration_secs == 0,
{
}

} // verus!
