//! A circuit breaker: stop reconnecting after repeated failures, and try
//! again, a limited number of times, once a timeout has passed.

use vstd::prelude::*;
use std::time::{Duration, Instant};
use crate::error::{TransportError, transport_error_text};
use crate::reconnection::traits::{ReconnectionMetrics, ReconnectionStrategy, inc64, inc32};
use crate::time::{duration_nanos, duration_at_least};

verus! {

/// The state of a circuit breaker.
#[derive(Debug, Clone, Copy, PartialEq, Eq, Structural)]
pub enum CircuitState {
    /// Reconnection is allowed.
    Closed,
    /// Too many failures: reconnection is refused until the timeout passes.
    Open,
    /// The timeout passed: a limited number of attempts are allowed.
    HalfOpen,
}

/// The changing part of a circuit breaker.
#[derive(Clone, Copy)]
pub struct CircuitView {
    /// The state of the circuit.
    pub state: CircuitState,
    /// Failures since the last success.
    pub consecutive_failures: u32,
    /// Attempts allowed since the circuit became half-open.
    pub half_open_attempt_count: u32,
    /// When the circuit last opened.
    pub opened_at: Option<Instant>,
}

/// The state check made before each decision: an open circuit becomes
/// half-open once the timeout has passed since it opened; a closed circuit
/// opens once the failures reach the threshold.
pub open spec fn update_spec(
    v: CircuitView,
    threshold: u32,
    timeout_elapsed: bool,
    now: Instant,
) -> CircuitView {
    match v.state {
        CircuitState::Open => if v.opened_at is Some && timeout_elapsed {
            CircuitView { state: CircuitState::HalfOpen, half_open_attempt_count: 0, ..v }
        } else {
            v
        },
        CircuitState::Closed => if v.consecutive_failures >= threshold {
            CircuitView { state: CircuitState::Open, opened_at: Some(now), ..v }
        } else {
            v
        },
        CircuitState::HalfOpen => v,
    }
}

/// Whether to reconnect, and the state afterwards. An invalid
/// configuration is never retried. Otherwise, after the state check, a
/// closed circuit allows the attempt and an open one refuses it; a
/// half-open circuit allows attempts until `attempts` have been allowed,
/// and then opens again.
pub open spec fn decide_spec(
    v: CircuitView,
    threshold: u32,
    attempts: u32,
    invalid_configuration: bool,
    timeout_elapsed: bool,
    now: Instant,
) -> (CircuitView, bool) {
    if invalid_configuration {
        (v, false)
    } else {
        let u = update_spec(v, threshold, timeout_elapsed, now);
        match u.state {
            CircuitState::Closed => (u, true),
            CircuitState::Open => (u, false),
            CircuitState::HalfOpen => if u.half_open_attempt_count < attempts {
                (
                    CircuitView {
                        half_open_attempt_count: (u.half_open_attempt_count + 1) as u32,
                        ..u
                    },
                    true,
                )
            } else {
                (CircuitView { state: CircuitState::Open, opened_at: Some(now), ..u }, false)
            },
        }
    }
}

/// The state after a failure is counted: one more failure, then the state
/// check.
pub open spec fn disconnect_spec(
    v: CircuitView,
    threshold: u32,
    timeout_elapsed: bool,
    now: Instant,
) -> CircuitView {
    update_spec(
        CircuitView { consecutive_failures: inc32(v.consecutive_failures), ..v },
        threshold,
        timeout_elapsed,
        now,
    )
}

/// A closed circuit with no failures.
pub open spec fn closed_view(v: CircuitView) -> bool {
    &&& v.state == CircuitState::Closed
    &&& v.consecutive_failures == 0
    &&& v.half_open_attempt_count == 0
    &&& v.opened_at is None
}

/// Stops reconnecting after `failure_threshold` consecutive failures, and
/// allows `half_open_attempts` attempts once `timeout` has passed.
#[derive(Debug)]
pub struct CircuitBreaker {
    failure_threshold: u32,
    timeout: Duration,
    half_open_attempts: u32,
    state: CircuitState,
    consecutive_failures: u32,
    half_open_attempt_count: u32,
    opened_at: Option<Instant>,
    metrics: ReconnectionMetrics,
}

impl CircuitBreaker {
    /// The changing part of the breaker.
    pub closed spec fn spec_view(&self) -> CircuitView {
        CircuitView {
            state: self.state,
            consecutive_failures: self.consecutive_failures,
            half_open_attempt_count: self.half_open_attempt_count,
            opened_at: self.opened_at,
        }
    }

    /// Failures that open the circuit.
    pub closed spec fn spec_threshold(&self) -> u32 {
        self.failure_threshold
    }

    /// How long the circuit stays open.
    pub closed spec fn spec_timeout(&self) -> Duration {
        self.timeout
    }

    /// Attempts allowed while half-open.
    pub closed spec fn spec_attempts(&self) -> u32 {
        self.half_open_attempts
    }

    /// The metrics kept so far.
    pub closed spec fn spec_metrics(&self) -> ReconnectionMetrics {
        self.metrics
    }

    /// A builder with the default settings.
    pub fn builder() -> (b: CircuitBreakerBuilder)
        ensures
            b.spec_threshold() == 5,
            duration_nanos(b.spec_timeout()) == 60_000_000_000,
            b.spec_attempts() == 3,
    {
        CircuitBreakerBuilder::default()
    }

    /// The current state.
    pub fn state(&self) -> (s: CircuitState)
        ensures
            s == self.spec_view().state,
    {
        self.state
    }

    /// Failures that open the circuit.
    pub fn failure_threshold(&self) -> (r: u32)
        ensures
            r == self.spec_threshold(),
    {
        self.failure_threshold
    }

    /// How long the circuit stays open.
    pub fn timeout(&self) -> (r: Duration)
        ensures
            r == self.spec_timeout(),
    {
        self.timeout
    }

    /// Attempts allowed while half-open.
    pub fn half_open_attempts(&self) -> (r: u32)
        ensures
            r == self.spec_attempts(),
    {
        self.half_open_attempts
    }

    /// A copy of the metrics.
    pub fn metrics(&self) -> (m: ReconnectionMetrics)
        ensures
            m == self.spec_metrics(),
    {
        ReconnectionMetrics {
            total_attempts: self.metrics.total_attempts,
            successful_reconnections: self.metrics.successful_reconnections,
            failed_reconnections: self.metrics.failed_reconnections,
            consecutive_failures: self.metrics.consecutive_failures,
            last_error: match &self.metrics.last_error {
                Some(m) => Some(m.clone()),
                None => None,
            },
        }
    }

    /// Closes the circuit by hand: no failures, no half-open attempts.
    pub fn close_circuit(&mut self)
        ensures
            closed_view(final(self).spec_view()),
            final(self).spec_threshold() == old(self).spec_threshold(),
            final(self).spec_timeout() == old(self).spec_timeout(),
            final(self).spec_attempts() == old(self).spec_attempts(),
            final(self).spec_metrics() == old(self).spec_metrics(),
    {
        self.state = CircuitState::Closed;
        self.consecutive_failures = 0;
        self.half_open_attempt_count = 0;
        self.opened_at = None;
    }

    /// Whether retrying can never help: a configuration the transport cannot
    /// use.
    fn is_non_recoverable_error(error: &TransportError) -> (r: bool)
        ensures
            r == (*error is InvalidConfiguration),
    {
        match error {
            TransportError::InvalidConfiguration { .. } => true,
            _ => false,
        }
    }

    /// Whether the timeout has passed since the circuit opened; false when
    /// it never opened, and true once it opened when the timeout is zero.
    /// Otherwise it depends on the clock, which this reads.
    fn timeout_elapsed(&self) -> (r: bool)
        ensures
            self.spec_view().opened_at is None ==> !r,
            (self.spec_view().opened_at is Some && duration_nanos(self.spec_timeout()) == 0) ==> r,
    {
        match &self.opened_at {
            Some(t) => {
                let elapsed = t.elapsed();
                duration_at_least(&elapsed, &self.timeout)
            },
            None => false,
        }
    }

    /// The state check, given whether the timeout has passed and the
    /// current time.
    fn update_state(&mut self, timeout_elapsed: bool, now: Instant)
        ensures
            final(self).spec_view() == update_spec(
                old(self).spec_view(),
                old(self).spec_threshold(),
                timeout_elapsed,
                now,
            ),
            final(self).spec_threshold() == old(self).spec_threshold(),
            final(self).spec_timeout() == old(self).spec_timeout(),
            final(self).spec_attempts() == old(self).spec_attempts(),
            final(self).spec_metrics() == old(self).spec_metrics(),
    {
        match self.state {
            CircuitState::Open => {
                if self.opened_at.is_some() && timeout_elapsed {
                    self.state = CircuitState::HalfOpen;
                    self.half_open_attempt_count = 0;
                }
            },
            CircuitState::Closed => {
                if self.consecutive_failures >= self.failure_threshold {
                    self.state = CircuitState::Open;
                    self.opened_at = Some(now);
                }
            },
            CircuitState::HalfOpen => {},
        }
    }

    /// Whether to reconnect after `last_error`, given whether the timeout
    /// has passed since the circuit opened and the current time.
    pub fn decide(&mut self, last_error: &TransportError, timeout_elapsed: bool, now: Instant) -> (r:
        bool)
        ensures
            (final(self).spec_view(), r) == decide_spec(
                old(self).spec_view(),
                old(self).spec_threshold(),
                old(self).spec_attempts(),
                *last_error is InvalidConfiguration,
                timeout_elapsed,
                now,
            ),
            final(self).spec_threshold() == old(self).spec_threshold(),
            final(self).spec_timeout() == old(self).spec_timeout(),
            final(self).spec_attempts() == old(self).spec_attempts(),
            final(self).spec_metrics() == old(self).spec_metrics(),
    {
        if Self::is_non_recoverable_error(last_error) {
            return false;
        }
        self.update_state(timeout_elapsed, now);
        match self.state {
            CircuitState::Closed => true,
            CircuitState::Open => false,
            CircuitState::HalfOpen => {
                if self.half_open_attempt_count < self.half_open_attempts {
                    self.half_open_attempt_count = self.half_open_attempt_count + 1;
                    true
                } else {
                    self.state = CircuitState::Open;
                    self.opened_at = Some(now);
                    false
                }
            },
        }
    }

    /// Counts a failure, given whether the timeout has passed since the
    /// circuit opened and the current time.
    pub fn record_disconnect(
        &mut self,
        error: &TransportError,
        timeout_elapsed: bool,
        now: Instant,
    )
        ensures
            final(self).spec_view() == disconnect_spec(
                old(self).spec_view(),
                old(self).spec_threshold(),
                timeout_elapsed,
                now,
            ),
            final(self).spec_metrics().failed_reconnections == inc64(
                old(self).spec_metrics().failed_reconnections,
            ),
            final(self).spec_metrics().consecutive_failures == inc32(
                old(self).spec_metrics().consecutive_failures,
            ),
            final(self).spec_metrics().last_error matches Some(m) && m@ == transport_error_text(
                *error,
            ),
            final(self).spec_metrics().total_attempts == old(self).spec_metrics().total_attempts,
            final(self).spec_metrics().successful_reconnections == old(
                self,
            ).spec_metrics().successful_reconnections,
            final(self).spec_threshold() == old(self).spec_threshold(),
            final(self).spec_timeout() == old(self).spec_timeout(),
            final(self).spec_attempts() == old(self).spec_attempts(),
    {
        self.consecutive_failures = self.consecutive_failures.wrapping_add(1);
        self.update_state(timeout_elapsed, now);
        self.metrics.record_failure(error);
    }
}

impl Default for CircuitBreaker {
    /// Five failures open the circuit for sixty seconds; three attempts are
    /// allowed while half-open.
    fn default() -> (b: Self)
        ensures
            b.spec_threshold() == 5,
            duration_nanos(b.spec_timeout()) == 60_000_000_000,
            b.spec_attempts() == 3,
            closed_view(b.spec_view()),
            b.spec_metrics().is_fresh(),
    {
        CircuitBreakerBuilder::default().build()
    }
}

impl ReconnectionStrategy for CircuitBreaker {
    /// The failure's message is the last error in the metrics.
    open spec fn knows_failure(&self, error: TransportError) -> bool {
        self.spec_metrics().last_error matches Some(m) && m@ == transport_error_text(error)
    }

    /// The answer of `decide_spec` at some reading of the clock.
    open spec fn may_answer(&self, attempt: u32, error: TransportError, answer: bool) -> bool {
        exists|elapsed: bool, now: Instant|
            (#[trigger] decide_spec(
                self.spec_view(),
                self.spec_threshold(),
                self.spec_attempts(),
                error is InvalidConfiguration,
                elapsed,
                now,
            )).1 == answer
    }

    /// The answer of `decide_spec` once the failure has been counted, at
    /// some readings of the clock.
    open spec fn may_answer_after(&self, error: TransportError, attempt: u32, answer: bool) -> bool {
        exists|told_elapsed: bool, told_now: Instant, elapsed: bool, now: Instant|
            (#[trigger] decide_spec(
                disconnect_spec(self.spec_view(), self.spec_threshold(), told_elapsed, told_now),
                self.spec_threshold(),
                self.spec_attempts(),
                error is InvalidConfiguration,
                elapsed,
                now,
            )).1 == answer
    }

    /// Always one hundred milliseconds.
    open spec fn delay_for(&self, attempt: u32, nanos: u128) -> bool {
        nanos == 100_000_000
    }

    /// Decides as `decide` does, with the clock read for the timeout and
    /// the current time.
    fn should_reconnect(&mut self, attempt: u32, last_error: &TransportError) -> (r: bool)
        ensures
            exists|elapsed: bool, now: Instant|
                (#[trigger] decide_spec(
                    old(self).spec_view(),
                    old(self).spec_threshold(),
                    old(self).spec_attempts(),
                    *last_error is InvalidConfiguration,
                    elapsed,
                    now,
                )) == (final(self).spec_view(), r),
            final(self).spec_threshold() == old(self).spec_threshold(),
            final(self).spec_timeout() == old(self).spec_timeout(),
            final(self).spec_attempts() == old(self).spec_attempts(),
            final(self).spec_metrics() == old(self).spec_metrics(),
    {
        let elapsed = self.timeout_elapsed();
        let now = Instant::now();
        self.decide(last_error, elapsed, now)
    }

    /// A short fixed delay of one hundred milliseconds.
    fn next_delay(&self, attempt: u32) -> (d: Duration)
        ensures
            duration_nanos(d) == 100_000_000,
    {
        Duration::from_millis(100)
    }

    /// Closes the circuit and counts the success.
    fn on_connected(&mut self)
        ensures
            closed_view(final(self).spec_view()),
            final(self).spec_metrics().successful_reconnections == inc64(
                old(self).spec_metrics().successful_reconnections,
            ),
            final(self).spec_metrics().consecutive_failures == 0,
            final(self).spec_metrics().last_error is None,
            final(self).spec_metrics().total_attempts == old(self).spec_metrics().total_attempts,
            final(self).spec_metrics().failed_reconnections == old(
                self,
            ).spec_metrics().failed_reconnections,
            final(self).spec_threshold() == old(self).spec_threshold(),
            final(self).spec_timeout() == old(self).spec_timeout(),
            final(self).spec_attempts() == old(self).spec_attempts(),
    {
        self.close_circuit();
        self.metrics.record_success();
    }

    /// Counts a failure as `record_disconnect` does, with the clock read
    /// for the timeout and the current time.
    fn on_disconnected(&mut self, error: &TransportError)
        ensures
            exists|elapsed: bool, now: Instant|
                #[trigger] disconnect_spec(
                    old(self).spec_view(),
                    old(self).spec_threshold(),
                    elapsed,
                    now,
                ) == final(self).spec_view(),
            final(self).spec_metrics().failed_reconnections == inc64(
                old(self).spec_metrics().failed_reconnections,
            ),
            final(self).spec_metrics().consecutive_failures == inc32(
                old(self).spec_metrics().consecutive_failures,
            ),
            final(self).spec_metrics().last_error matches Some(m) && m@ == transport_error_text(
                *error,
            ),
            final(self).spec_threshold() == old(self).spec_threshold(),
            final(self).spec_timeout() == old(self).spec_timeout(),
            final(self).spec_attempts() == old(self).spec_attempts(),
    {
        let elapsed = self.timeout_elapsed();
        let now = Instant::now();
        self.record_disconnect(error, elapsed, now);
    }

    /// Closes the circuit and forgets the metrics.
    fn reset(&mut self)
        ensures
            closed_view(final(self).spec_view()),
            final(self).spec_metrics().is_fresh(),
            final(self).spec_threshold() == old(self).spec_threshold(),
            final(self).spec_timeout() == old(self).spec_timeout(),
            final(self).spec_attempts() == old(self).spec_attempts(),
    {
        self.close_circuit();
        self.metrics.reset();
    }

    fn name(&self) -> (r: &str)
        ensures
            r@ == "CircuitBreaker"@,
    {
        "CircuitBreaker"
    }
}

/// Settings for a circuit breaker.
#[derive(Debug)]
pub struct CircuitBreakerBuilder {
    failure_threshold: u32,
    timeout: Duration,
    half_open_attempts: u32,
}

impl CircuitBreakerBuilder {
    /// Failures that will open the circuit.
    pub closed spec fn spec_threshold(&self) -> u32 {
        self.failure_threshold
    }

    /// How long the circuit will stay open.
    pub closed spec fn spec_timeout(&self) -> Duration {
        self.timeout
    }

    /// Attempts that will be allowed while half-open.
    pub closed spec fn spec_attempts(&self) -> u32 {
        self.half_open_attempts
    }

    /// Sets the number of failures that open the circuit.
    pub fn failure_threshold(self, threshold: u32) -> (b: Self)
        ensures
            b.spec_threshold() == threshold,
            b.spec_timeout() == self.spec_timeout(),
            b.spec_attempts() == self.spec_attempts(),
    {
        CircuitBreakerBuilder { failure_threshold: threshold, ..self }
    }

    /// Sets how long the circuit stays open.
    pub fn timeout(self, timeout: Duration) -> (b: Self)
        ensures
            b.spec_threshold() == self.spec_threshold(),
            b.spec_timeout() == timeout,
            b.spec_attempts() == self.spec_attempts(),
    {
        CircuitBreakerBuilder { timeout, ..self }
    }

    /// Sets the number of attempts allowed while half-open.
    pub fn half_open_attempts(self, attempts: u32) -> (b: Self)
        ensures
            b.spec_threshold() == self.spec_threshold(),
            b.spec_timeout() == self.spec_timeout(),
            b.spec_attempts() == attempts,
    {
        CircuitBreakerBuilder { half_open_attempts: attempts, ..self }
    }

    /// A closed circuit breaker with these settings and fresh metrics.
    pub fn build(self) -> (c: CircuitBreaker)
        ensures
            c.spec_threshold() == self.spec_threshold(),
            c.spec_timeout() == self.spec_timeout(),
            c.spec_attempts() == self.spec_attempts(),
            closed_view(c.spec_view()),
            c.spec_metrics().is_fresh(),
    {
        CircuitBreaker {
            failure_threshold: self.failure_threshold,
            timeout: self.timeout,
            half_open_attempts: self.half_open_attempts,
            state: CircuitState::Closed,
            consecutive_failures: 0,
            half_open_attempt_count: 0,
            opened_at: None,
            metrics: ReconnectionMetrics::new(),
        }
    }
}

impl Default for CircuitBreakerBuilder {
    /// Five failures, sixty seconds, three half-open attempts.
    fn default() -> (b: Self)
        ensures
            b.spec_threshold() == 5,
            duration_nanos(b.spec_timeout()) == 60_000_000_000,
            b.spec_attempts() == 3,
    {
        CircuitBreakerBuilder {
            failure_threshold: 5,
            timeout: Duration::from_secs(60),
            half_open_attempts: 3,
        }
    }
}

/// The state after `n` failures are counted, the `k`-th with
/// `elapsed[k]` and `times[k]`.
pub open spec fn after_disconnects(
    v: CircuitView,
    threshold: u32,
    elapsed: Seq<bool>,
    times: Seq<Instant>,
    n: nat,
) -> CircuitView
    decreases n,
{
    if n == 0 {
        v
    } else {
        disconnect_spec(
            after_disconnects(v, threshold, elapsed, times, (n - 1) as nat),
            threshold,
            elapsed[n - 1],
            times[n - 1],
        )
    }
}

/// The circuit opens on the failure that reaches the threshold, and not
/// before: from a closed circuit with no failures, after `n` failures (at
/// any times) the circuit is closed while `n` is below the threshold and
/// open once `n` reaches it.
pub proof fn lemma_opens_at_threshold(
    v: CircuitView,
    threshold: u32,
    elapsed: Seq<bool>,
    times: Seq<Instant>,
    n: nat,
)
    requires
        closed_view(v),
        threshold >= 1,
        n <= threshold,
        elapsed.len() >= n,
        times.len() >= n,
    ensures
        after_disconnects(v, threshold, elapsed, times, n).consecutive_failures == n,
        after_disconnects(v, threshold, elapsed, times, n).state == (if n < threshold {
            CircuitState::Closed
        } else {
            CircuitState::Open
        }),
    decreases n,
{
    if n > 0 {
        lemma_opens_at_threshold(v, threshold, elapsed, times, (n - 1) as nat);
    }
}

/// The state after `n` decisions on errors that are not configuration
/// errors, the `k`-th with `elapsed[k]` and `times[k]`.
pub open spec fn after_decisions(
    v: CircuitView,
    threshold: u32,
    attempts: u32,
    elapsed: Seq<bool>,
    times: Seq<Instant>,
    n: nat,
) -> CircuitView
    decreases n,
{
    if n == 0 {
        v
    } else {
        decide_spec(
            after_decisions(v, threshold, attempts, elapsed, times, (n - 1) as nat),
            threshold,
            attempts,
            false,
            elapsed[n - 1],
            times[n - 1],
        ).0
    }
}

/// A half-open circuit allows exactly `attempts` attempts: from a
/// half-open circuit that has allowed none, each of the first `attempts`
/// decisions allows the attempt, and the next one refuses it and opens the
/// circuit again.
pub proof fn lemma_half_open_allows_exactly(
    v: CircuitView,
    threshold: u32,
    attempts: u32,
    elapsed: Seq<bool>,
    times: Seq<Instant>,
    n: nat,
)
    requires
        v.state == CircuitState::HalfOpen,
        v.half_open_attempt_count == 0,
        n <= attempts,
        elapsed.len() > n,
        times.len() > n,
    ensures
        after_decisions(v, threshold, attempts, elapsed, times, n).state
            == CircuitState::HalfOpen,
        after_decisions(v, threshold, attempts, elapsed, times, n).half_open_attempt_count == n,
        decide_spec(
            after_decisions(v, threshold, attempts, elapsed, times, n),
            threshold,
            attempts,
            false,
            elapsed[n as int],
            times[n as int],
        ).1 == (n < attempts),
        n == attempts ==> decide_spec(
            after_decisions(v, threshold, attempts, elapsed, times, n),
            threshold,
            attempts,
            false,
            elapsed[n as int],
            times[n as int],
        ).0.state == CircuitState::Open,
    decreases n,
{
    if n > 0 {
        lemma_half_open_allows_exactly(v, threshold, attempts, elapsed, times, (n - 1) as nat);
    }
}

/// An open circuit refuses every attempt and stays as it is until the
/// timeout has passed.
pub proof fn lemma_open_refuses_before_timeout(
    v: CircuitView,
    threshold: u32,
    attempts: u32,
    invalid_configuration: bool,
    now: Instant,
)
    requires
        v.state == CircuitState::Open,
    ensures
        decide_spec(v, threshold, attempts, invalid_configuration, false, now) == (v, false),
{
}

/// A configuration error is never retried, and the decision leaves the
/// circuit as it is.
pub proof fn lemma_invalid_configuration_never_retried(
    v: CircuitView,
    threshold: u32,
    attempts: u32,
    elapsed: bool,
    now: Instant,
)
    ensures
        decide_spec(v, threshold, attempts, true, elapsed, now) == (v, false),
{
}

/// A closed circuit below the threshold allows the attempt and stays as it
/// is.
pub proof fn lemma_closed_allows(
    v: CircuitView,
    threshold: u32,
    attempts: u32,
    elapsed: bool,
    now: Instant,
)
    requires
        v.state == CircuitState::Closed,
        v.consecutive_failures < threshold,
    ensures
        decide_spec(v, threshold, attempts, false, elapsed, now) == (v, true),
{
}

/// Each time the timeout has passed on an open circuit, the circuit turns
/// half-open afresh: its probe count starts again at zero, whatever earlier
/// half-open periods used up. So, with at least one probe allowed, the
/// first decision after every timeout allows an attempt, and counts one
/// probe.
pub proof fn lemma_probe_after_every_timeout(
    v: CircuitView,
    threshold: u32,
    attempts: u32,
    now: Instant,
)
    requires
        v.state == CircuitState::Open,
        v.opened_at is Some,
        attempts >= 1,
    ensures
        update_spec(v, threshold, true, now).state == CircuitState::HalfOpen,
        update_spec(v, threshold, true, now).half_open_attempt_count == 0,
        decide_spec(v, threshold, attempts, false, true, now).1,
        decide_spec(v, threshold, attempts, false, true, now).0.state == CircuitState::HalfOpen,
        decide_spec(v, threshold, attempts, false, true, now).0.half_open_attempt_count == 1,
{
}

/// A closed breaker that one more failure leaves below its threshold,
/// told of that failure and then asked, says to try again, whatever the
/// clock reads, unless the failure is a configuration error.
pub proof fn lemma_retry_after_failure_below_threshold(
    cb: CircuitBreaker,
    error: TransportError,
    attempt: u32,
    answer: bool,
)
    requires
        cb.spec_view().state == CircuitState::Closed,
        inc32(cb.spec_view().consecutive_failures) < cb.spec_threshold(),
        !(error is InvalidConfiguration),
        cb.may_answer_after(error, attempt, answer),
    ensures
        answer,
{
}

} // verus!
