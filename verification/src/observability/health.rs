//! Health checks: a status with an optional message, when it last changed
//! and when it was last looked at, and the liveness and readiness probes.

use vstd::prelude::*;
use std::time::{Duration, Instant};

verus! {

/// How well a component is doing.
#[derive(Debug, Clone, Copy, PartialEq, Eq, Structural, Hash)]
pub enum HealthStatus {
    /// Fully working.
    Healthy,
    /// Working, with problems.
    Degraded,
    /// Not working.
    Unhealthy,
}

/// Whether a status still serves requests: healthy or degraded.
pub open spec fn operational(s: HealthStatus) -> bool {
    s is Healthy || s is Degraded
}

/// The display form of a status.
pub open spec fn status_text(s: HealthStatus) -> Seq<char> {
    match s {
        HealthStatus::Healthy => "healthy"@,
        HealthStatus::Degraded => "degraded"@,
        HealthStatus::Unhealthy => "unhealthy"@,
    }
}

impl HealthStatus {
    /// Whether fully working.
    pub fn is_healthy(self) -> (r: bool)
        ensures
            r == (self is Healthy),
    {
        match self {
            HealthStatus::Healthy => true,
            _ => false,
        }
    }

    /// Whether working with problems.
    pub fn is_degraded(self) -> (r: bool)
        ensures
            r == (self is Degraded),
    {
        match self {
            HealthStatus::Degraded => true,
            _ => false,
        }
    }

    /// Whether not working.
    pub fn is_unhealthy(self) -> (r: bool)
        ensures
            r == (self is Unhealthy),
    {
        match self {
            HealthStatus::Unhealthy => true,
            _ => false,
        }
    }

    /// Whether still serving: healthy or degraded.
    pub fn is_operational(self) -> (r: bool)
        ensures
            r == operational(self),
    {
        match self {
            HealthStatus::Healthy | HealthStatus::Degraded => true,
            _ => false,
        }
    }

    /// "healthy", "degraded" or "unhealthy".
    pub fn to_string(&self) -> (s: String)
        ensures
            s@ == status_text(*self),
    {
        proof {
            reveal_strlit("healthy");
            reveal_strlit("degraded");
            reveal_strlit("unhealthy");
        }
        match self {
            HealthStatus::Healthy => "healthy".to_string(),
            HealthStatus::Degraded => "degraded".to_string(),
            HealthStatus::Unhealthy => "unhealthy".to_string(),
        }
    }
}

/// The state of a health check, as plain values and instants.
pub struct HealthView {
    pub status: HealthStatus,
    pub message: Option<Seq<char>>,
    pub last_change: Instant,
    pub last_check: Instant,
}

/// The state after a status is set at `now`: the status and message are
/// replaced, the check time is `now`, and the change time is `now` only if
/// the status differs from the one before.
pub open spec fn set_status_spec(
    v: HealthView,
    status: HealthStatus,
    message: Option<Seq<char>>,
    now: Instant,
) -> HealthView {
    HealthView {
        status,
        message,
        last_change: if v.status != status { now } else { v.last_change },
        last_check: now,
    }
}

/// The characters of an optional message.
pub open spec fn opt_text(m: Option<String>) -> Option<Seq<char>> {
    match m {
        Some(s) => Some(s@),
        None => None,
    }
}

/// A component's health: its status, a message, and when the status last
/// changed and was last looked at. A check is one state: owners that must
/// all see its changes share the one check rather than copies of it.
#[derive(Debug)]
pub struct HealthCheck {
    status: HealthStatus,
    message: Option<String>,
    last_change: Instant,
    last_check: Instant,
}

impl HealthCheck {
    /// The state of the check.
    pub closed spec fn spec_view(&self) -> HealthView {
        HealthView {
            status: self.status,
            message: opt_text(self.message),
            last_change: self.last_change,
            last_check: self.last_check,
        }
    }

    /// A healthy check with no message, changed and checked now.
    pub fn new() -> (h: Self)
        ensures
            h.spec_view().status == HealthStatus::Healthy,
            h.spec_view().message is None,
            h.spec_view().last_change == h.spec_view().last_check,
    {
        let now = Instant::now();
        HealthCheck { status: HealthStatus::Healthy, message: None, last_change: now, last_check: now }
    }

    /// The current status.
    pub fn status(&self) -> (s: HealthStatus)
        ensures
            s == self.spec_view().status,
    {
        self.status
    }

    /// The current message, if any.
    pub fn message(&self) -> (m: Option<String>)
        ensures
            opt_text(m) == self.spec_view().message,
    {
        match &self.message {
            Some(m) => Some(m.clone()),
            None => None,
        }
    }

    /// The time since the status last changed. This reads the clock.
    pub fn time_since_change(&self) -> Duration {
        self.last_change.elapsed()
    }

    /// The time since the status was last looked at. This reads the clock.
    pub fn time_since_check(&self) -> Duration {
        self.last_check.elapsed()
    }

    /// Sets the status and message at time `now`.
    pub fn set_status_at(&mut self, status: HealthStatus, message: Option<String>, now: Instant)
        ensures
            final(self).spec_view() == set_status_spec(
                old(self).spec_view(),
                status,
                opt_text(message),
                now,
            ),
    {
        let changed = self.status != status;
        self.status = status;
        self.message = message;
        if changed {
            self.last_change = now;
        }
        self.last_check = now;
    }

    /// Sets the status and message, at the current time.
    fn set_status(&mut self, status: HealthStatus, message: Option<String>)
        ensures
            exists|now: Instant|
                final(self).spec_view() == #[trigger] set_status_spec(
                    old(self).spec_view(),
                    status,
                    opt_text(message),
                    now,
                ),
    {
        let now = Instant::now();
        self.set_status_at(status, message, now);
    }

    /// Marks the component healthy and clears the message.
    pub fn set_healthy(&mut self)
        ensures
            exists|now: Instant|
                final(self).spec_view() == #[trigger] set_status_spec(
                    old(self).spec_view(),
                    HealthStatus::Healthy,
                    None,
                    now,
                ),
    {
        self.set_status(HealthStatus::Healthy, None);
    }

    /// Marks the component degraded, with a message.
    pub fn set_degraded(&mut self, message: &str)
        ensures
            exists|now: Instant|
                final(self).spec_view() == #[trigger] set_status_spec(
                    old(self).spec_view(),
                    HealthStatus::Degraded,
                    Some(message@),
                    now,
                ),
    {
        self.set_status(HealthStatus::Degraded, Some(message.to_string()));
    }

    /// Marks the component unhealthy, with a message.
    pub fn set_unhealthy(&mut self, message: &str)
        ensures
            exists|now: Instant|
                final(self).spec_view() == #[trigger] set_status_spec(
                    old(self).spec_view(),
                    HealthStatus::Unhealthy,
                    Some(message@),
                    now,
                ),
    {
        self.set_status(HealthStatus::Unhealthy, Some(message.to_string()));
    }

    /// The liveness probe: whether the component still serves; the check
    /// time moves to now.
    pub fn is_alive(&mut self) -> (r: bool)
        ensures
            r == operational(old(self).spec_view().status),
            final(self).spec_view().status == old(self).spec_view().status,
            final(self).spec_view().message == old(self).spec_view().message,
            final(self).spec_view().last_change == old(self).spec_view().last_change,
    {
        self.last_check = Instant::now();
        self.status.is_operational()
    }

    /// The readiness probe: whether the component still serves; the check
    /// time moves to now.
    pub fn is_ready(&mut self) -> (r: bool)
        ensures
            r == operational(old(self).spec_view().status),
            final(self).spec_view().status == old(self).spec_view().status,
            final(self).spec_view().message == old(self).spec_view().message,
            final(self).spec_view().last_change == old(self).spec_view().last_change,
    {
        self.last_check = Instant::now();
        self.status.is_operational()
    }

    /// A report of the status and message, with the times since the last
    /// change and the last check as read from the clock.
    pub fn report(&self) -> (r: HealthReport)
        ensures
            r.status == self.spec_view().status,
            opt_text(r.message) == self.spec_view().message,
    {
        HealthReport {
            status: self.status,
            message: self.message(),
            time_since_change: self.last_change.elapsed(),
            time_since_check: self.last_check.elapsed(),
        }
    }
}

impl Default for HealthCheck {
    fn default() -> (h: Self)
        ensures
            h.spec_view().status == HealthStatus::Healthy,
            h.spec_view().message is None,
    {
        Self::new()
    }
}

/// A snapshot of a health check.
#[derive(Debug, Clone)]
pub struct HealthReport {
    /// The status.
    pub status: HealthStatus,
    /// The message, if any.
    pub message: Option<String>,
    /// The time since the status last changed.
    pub time_since_change: Duration,
    /// The time since the status was last looked at.
    pub time_since_check: Duration,
}

impl HealthReport {
    /// Whether the status is healthy.
    pub fn is_healthy(&self) -> (r: bool)
        ensures
            r == (self.status is Healthy),
    {
        self.status.is_healthy()
    }

    /// Whether the status still serves.
    pub fn is_operational(&self) -> (r: bool)
        ensures
            r == operational(self.status),
    {
        self.status.is_operational()
    }
}

/// Setting a status keeps the status and message given; the change time
/// moves only when the status actually changes, and setting the same
/// status twice leaves the change time of the first.
pub proof fn lemma_change_time_moves_only_on_change(
    v: HealthView,
    s: HealthStatus,
    m1: Option<Seq<char>>,
    m2: Option<Seq<char>>,
    t1: Instant,
    t2: Instant,
)
    ensures
        set_status_spec(v, s, m1, t1).status == s,
        set_status_spec(v, s, m1, t1).message == m1,
        v.status == s ==> set_status_spec(v, s, m1, t1).last_change == v.last_change,
        set_status_spec(set_status_spec(v, s, m1, t1), s, m2, t2).last_change == set_status_spec(
            v,
            s,
            m1,
            t1,
        ).last_change,
{
}

} // verus!
