//! A strategy that never reconnects.

use vstd::prelude::*;
use std::time::Duration;
use crate::error::{TransportError, transport_error_text};
use crate::reconnection::traits::{ReconnectionMetrics, ReconnectionStrategy, inc64, inc32};
use crate::time::duration_nanos;

verus! {

/// Never tries again; only keeps the metrics.
#[derive(Debug)]
pub struct NoReconnect {
    metrics: ReconnectionMetrics,
}

impl NoReconnect {
    /// The metrics kept so far.
    pub closed spec fn spec_metrics(&self) -> ReconnectionMetrics {
        self.metrics
    }

    /// A strategy with fresh metrics.
    pub fn new() -> (s: Self)
        ensures
            s.spec_metrics().is_fresh(),
    {
        NoReconnect { metrics: ReconnectionMetrics::new() }
    }

    /// A copy of the metrics.
    pub fn metrics(&self) -> (m: ReconnectionMetrics)
        ensures
            m == self.spec_metrics(),
    {
        ReconnectionMetrics {
            total_attempts: self.metrics.total_attempts,
            successful_reconnections: self.metrics.successful_reconnections,
            failed_reconnections: self.metrics.failed_reconnections,
            consecutive_failures: self.metrics.consecutive_failures,
            last_error: match &self.metrics.last_error {
                Some(m) => Some(m.clone()),
                None => None,
            },
        }
    }
}

impl Default for NoReconnect {
    fn default() -> (s: Self)
        ensures
            s.spec_metrics().is_fresh(),
    {
        Self::new()
    }
}

impl ReconnectionStrategy for NoReconnect {
    /// The failure's message is the last error in the metrics.
    open spec fn knows_failure(&self, error: TransportError) -> bool {
        self.spec_metrics().last_error matches Some(m) && m@ == transport_error_text(error)
    }

    /// Never again.
    open spec fn may_answer(&self, attempt: u32, error: TransportError, answer: bool) -> bool {
        !answer
    }

    /// Never again.
    open spec fn may_answer_after(&self, error: TransportError, attempt: u32, answer: bool) -> bool {
        !answer
    }

    /// No delay.
    open spec fn delay_for(&self, attempt: u32, nanos: u128) -> bool {
        nanos == 0
    }

    /// Always false, whatever the attempt and the error.
    fn should_reconnect(&mut self, attempt: u32, last_error: &TransportError) -> (r: bool)
        ensures
            !r,
            final(self).spec_metrics() == old(self).spec_metrics(),
    {
        false
    }

    /// No delay.
    fn next_delay(&self, attempt: u32) -> (d: Duration)
        ensures
            duration_nanos(d) == 0,
    {
        Duration::from_secs(0)
    }

    fn on_connected(&mut self)
        ensures
            final(self).spec_metrics().successful_reconnections == inc64(
                old(self).spec_metrics().successful_reconnections,
            ),
            final(self).spec_metrics().consecutive_failures == 0,
            final(self).spec_metrics().last_error is None,
            final(self).spec_metrics().total_attempts == old(self).spec_metrics().total_attempts,
            final(self).spec_metrics().failed_reconnections == old(
                self,
            ).spec_metrics().failed_reconnections,
    {
        self.metrics.record_success();
    }

    fn on_disconnected(&mut self, error: &TransportError)
        ensures
            final(self).spec_metrics().failed_reconnections == inc64(
                old(self).spec_metrics().failed_reconnections,
            ),
            final(self).spec_metrics().consecutive_failures == inc32(
                old(self).spec_metrics().consecutive_failures,
            ),
            final(self).spec_metrics().last_error matches Some(m) && m@ == transport_error_text(
                *error,
            ),
            final(self).spec_metrics().total_attempts == old(self).spec_metrics().total_attempts,
            final(self).spec_metrics().successful_reconnections == old(
                self,
            ).spec_metrics().successful_reconnections,
    {
        self.metrics.record_failure(error);
    }

    fn reset(&mut self)
        ensures
            final(self).spec_metrics().is_fresh(),
    {
        self.metrics.reset();
    }

    fn name(&self) -> (r: &str)
        ensures
            r@ == "NoReconnect"@,
    {
        "NoReconnect"
    }
}

} // verus!
