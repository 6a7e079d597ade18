//! The reconnection strategy trait and its metrics.

use vstd::prelude::*;
use std::time::Duration;
use crate::error::{TransportError, transport_error_text};
use crate::time::duration_nanos;

verus! {

/// Decides whether and when to reconnect after a connection failed.
pub trait ReconnectionStrategy {
    /// The strategy has been told that a connection failed with `error`.
    spec fn knows_failure(&self, error: TransportError) -> bool;

    /// `answer` is an answer that the strategy may give when asked whether
    /// to try again after `attempt` attempts that ended in `error`.
    spec fn may_answer(&self, attempt: u32, error: TransportError, answer: bool) -> bool;

    /// `answer` is an answer that the strategy may give, when asked whether
    /// to try again after `attempt` attempts, once it has been told that a
    /// connection failed with `error`.
    spec fn may_answer_after(&self, error: TransportError, attempt: u32, answer: bool) -> bool;

    /// `nanos` is a delay, in nanoseconds, that the strategy may ask for
    /// before attempt number `attempt`.
    spec fn delay_for(&self, attempt: u32, nanos: u128) -> bool;

    /// Whether to try again after `attempt` attempts that ended in
    /// `last_error`.
    fn should_reconnect(&mut self, attempt: u32, last_error: &TransportError) -> (r: bool)
        ensures
            old(self).may_answer(attempt, *last_error, r),
    ;

    /// How long to wait before attempt number `attempt`.
    fn next_delay(&self, attempt: u32) -> (d: Duration)
        ensures
            self.delay_for(attempt, duration_nanos(d)),
    ;

    /// A connection was established.
    fn on_connected(&mut self);

    /// A connection was lost or could not be made.
    fn on_disconnected(&mut self, error: &TransportError)
        ensures
            final(self).knows_failure(*error),
            forall|attempt: u32, answer: bool|
                #[trigger] final(self).may_answer(attempt, *error, answer) ==> old(
                    self,
                ).may_answer_after(*error, attempt, answer),
    ;

    /// Forgets all history.
    fn reset(&mut self);

    /// The strategy's name.
    fn name(&self) -> &str;
}

/// What a reconnection strategy has seen so far.
#[derive(Debug, Clone)]
pub struct ReconnectionMetrics {
    /// Connection attempts so far.
    pub total_attempts: u64,
    /// Attempts that connected.
    pub successful_reconnections: u64,
    /// Attempts that failed.
    pub failed_reconnections: u64,
    /// Failures since the last success.
    pub consecutive_failures: u32,
    /// The message of the last failure since the last success.
    pub last_error: Option<String>,
}

/// One more on `u64`, wrapping around.
pub open spec fn inc64(n: u64) -> u64 {
    if n == u64::MAX { 0 } else { (n + 1) as u64 }
}

/// One more on `u32`, wrapping around.
pub open spec fn inc32(n: u32) -> u32 {
    if n == u32::MAX { 0 } else { (n + 1) as u32 }
}

impl ReconnectionMetrics {
    /// All counters at zero and no error.
    pub open spec fn is_fresh(&self) -> bool {
        &&& self.total_attempts == 0
        &&& self.successful_reconnections == 0
        &&& self.failed_reconnections == 0
        &&& self.consecutive_failures == 0
        &&& self.last_error is None
    }

    /// Metrics with all counters at zero and no error.
    pub fn new() -> (m: Self)
        ensures
            m.is_fresh(),
    {
        ReconnectionMetrics {
            total_attempts: 0,
            successful_reconnections: 0,
            failed_reconnections: 0,
            consecutive_failures: 0,
            last_error: None,
        }
    }

    /// Counts an attempt.
    pub fn record_attempt(&mut self)
        ensures
            final(self).total_attempts == inc64(old(self).total_attempts),
            final(self).successful_reconnections == old(self).successful_reconnections,
            final(self).failed_reconnections == old(self).failed_reconnections,
            final(self).consecutive_failures == old(self).consecutive_failures,
            final(self).last_error == old(self).last_error,
    {
        self.total_attempts = self.total_attempts.wrapping_add(1);
    }

    /// Counts a success: the run of failures ends and the last error is
    /// forgotten.
    pub fn record_success(&mut self)
        ensures
            final(self).successful_reconnections == inc64(old(self).successful_reconnections),
            final(self).consecutive_failures == 0,
            final(self).last_error is None,
            final(self).total_attempts == old(self).total_attempts,
            final(self).failed_reconnections == old(self).failed_reconnections,
    {
        self.successful_reconnections = self.successful_reconnections.wrapping_add(1);
        self.consecutive_failures = 0;
        self.last_error = None;
    }

    /// Counts a failure and keeps its message.
    pub fn record_failure(&mut self, error: &TransportError)
        ensures
            final(self).failed_reconnections == inc64(old(self).failed_reconnections),
            final(self).consecutive_failures == inc32(old(self).consecutive_failures),
            final(self).last_error matches Some(m) && m@ == transport_error_text(*error),
            final(self).total_attempts == old(self).total_attempts,
            final(self).successful_reconnections == old(self).successful_reconnections,
    {
        self.failed_reconnections = self.failed_reconnections.wrapping_add(1);
        self.consecutive_failures = self.consecutive_failures.wrapping_add(1);
        self.last_error = Some(error.to_string());
    }

    /// Puts every counter back to zero and forgets the last error.
    pub fn reset(&mut self)
        ensures
            final(self).is_fresh(),
    {
        *self = Self::new();
    }
}

impl Default for ReconnectionMetrics {
    fn default() -> (m: Self)
        ensures
            m.is_fresh(),
    {
        Self::new()
    }
}

} // verus!
