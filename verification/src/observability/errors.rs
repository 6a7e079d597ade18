//! Counting errors by layer, notifying observers, and the log record of an
//! error.

use vstd::prelude::*;
use crate::channel::id::ChannelId;
use crate::channel::error::channel_error_id;
use crate::error::{
    BdrpcError, bdrpc_error_recoverable, bdrpc_error_closes_transport, bdrpc_error_closes_channel,
    transport_error_text, bdrpc_error_text,
};
use crate::channel::error::channel_error_text;
use crate::reconnection::traits::inc64;
use crate::text::{decimal, decimal_string};

verus! {

/// The error counters, as plain values.
#[derive(Clone, Copy)]
pub struct ErrorCounts {
    pub transport: u64,
    pub channel: u64,
    pub application: u64,
    pub recoverable: u64,
    pub transport_closures: u64,
    pub channel_closures: u64,
}

/// All counters at zero.
pub open spec fn zero_counts() -> ErrorCounts {
    ErrorCounts {
        transport: 0,
        channel: 0,
        application: 0,
        recoverable: 0,
        transport_closures: 0,
        channel_closures: 0,
    }
}

/// One more if `b`, the same otherwise.
pub open spec fn inc_if(n: u64, b: bool) -> u64 {
    if b { inc64(n) } else { n }
}

/// The counters after an error is recorded: one more for its layer, and
/// one more for each of recoverable, closes-transport and closes-channel
/// that holds of it.
pub open spec fn record_spec(c: ErrorCounts, e: BdrpcError) -> ErrorCounts {
    ErrorCounts {
        transport: inc_if(c.transport, e is Transport),
        channel: inc_if(c.channel, e is Channel),
        application: inc_if(c.application, e is Application),
        recoverable: inc_if(c.recoverable, bdrpc_error_recoverable(e)),
        transport_closures: inc_if(c.transport_closures, bdrpc_error_closes_transport(e)),
        channel_closures: inc_if(c.channel_closures, bdrpc_error_closes_channel(e)),
    }
}

/// Counts errors by layer, recoverability and the closures they call for.
#[derive(Debug)]
pub struct ErrorMetrics {
    transport_errors: u64,
    channel_errors: u64,
    application_errors: u64,
    recoverable_errors: u64,
    transport_closures: u64,
    channel_closures: u64,
}

impl ErrorMetrics {
    /// The counters.
    pub closed spec fn spec_counts(&self) -> ErrorCounts {
        ErrorCounts {
            transport: self.transport_errors,
            channel: self.channel_errors,
            application: self.application_errors,
            recoverable: self.recoverable_errors,
            transport_closures: self.transport_closures,
            channel_closures: self.channel_closures,
        }
    }

    /// All counters at zero.
    pub fn new() -> (m: Self)
        ensures
            m.spec_counts() == zero_counts(),
    {
        ErrorMetrics {
            transport_errors: 0,
            channel_errors: 0,
            application_errors: 0,
            recoverable_errors: 0,
            transport_closures: 0,
            channel_closures: 0,
        }
    }

    /// Counts an error.
    pub fn record_error(&mut self, error: &BdrpcError)
        ensures
            final(self).spec_counts() == record_spec(old(self).spec_counts(), *error),
    {
        match error {
            BdrpcError::Transport(_) => {
                self.transport_errors = self.transport_errors.wrapping_add(1);
            },
            BdrpcError::Channel(_) => {
                self.channel_errors = self.channel_errors.wrapping_add(1);
            },
            BdrpcError::Application(_) => {
                self.application_errors = self.application_errors.wrapping_add(1);
            },
        }
        if error.is_recoverable() {
            self.recoverable_errors = self.recoverable_errors.wrapping_add(1);
        }
        if error.should_close_transport() {
            self.transport_closures = self.transport_closures.wrapping_add(1);
        }
        if error.should_close_channel() {
            self.channel_closures = self.channel_closures.wrapping_add(1);
        }
    }

    /// Transport errors counted.
    pub fn transport_errors(&self) -> (r: u64)
        ensures
            r == self.spec_counts().transport,
    {
        self.transport_errors
    }

    /// Channel errors counted.
    pub fn channel_errors(&self) -> (r: u64)
        ensures
            r == self.spec_counts().channel,
    {
        self.channel_errors
    }

    /// Application errors counted.
    pub fn application_errors(&self) -> (r: u64)
        ensures
            r == self.spec_counts().application,
    {
        self.application_errors
    }

    /// All errors counted: the sum over the three layers.
    pub fn total_errors(&self) -> (r: u64)
        requires
            self.spec_counts().transport + self.spec_counts().channel
                + self.spec_counts().application <= u64::MAX,
        ensures
            r == self.spec_counts().transport + self.spec_counts().channel
                + self.spec_counts().application,
    {
        self.transport_errors + self.channel_errors + self.application_errors
    }

    /// Recoverable errors counted.
    pub fn recoverable_errors(&self) -> (r: u64)
        ensures
            r == self.spec_counts().recoverable,
    {
        self.recoverable_errors
    }

    /// Errors counted that closed a transport.
    pub fn transport_closures(&self) -> (r: u64)
        ensures
            r == self.spec_counts().transport_closures,
    {
        self.transport_closures
    }

    /// Errors counted that closed a channel.
    pub fn channel_closures(&self) -> (r: u64)
        ensures
            r == self.spec_counts().channel_closures,
    {
        self.channel_closures
    }

    /// Puts every counter back to zero.
    pub fn reset(&mut self)
        ensures
            final(self).spec_counts() == zero_counts(),
    {
        self.transport_errors = 0;
        self.channel_errors = 0;
        self.application_errors = 0;
        self.recoverable_errors = 0;
        self.transport_closures = 0;
        self.channel_closures = 0;
    }
}

/// Recording an error adds one to exactly one layer's counter, so the
/// total over the layers grows by one (away from wrap-around).
pub proof fn lemma_record_adds_one_to_total(c: ErrorCounts, e: BdrpcError)
    requires
        c.transport < u64::MAX,
        c.channel < u64::MAX,
        c.application < u64::MAX,
    ensures
        record_spec(c, e).transport + record_spec(c, e).channel + record_spec(c, e).application
            == c.transport + c.channel + c.application + 1,
{
}

/// The counters after recording `es` in order, starting from `c`.
pub open spec fn record_all(c: ErrorCounts, es: Seq<BdrpcError>) -> ErrorCounts
    decreases es.len(),
{
    if es.len() == 0 {
        c
    } else {
        record_spec(record_all(c, es.drop_last()), es.last())
    }
}

/// After `k` errors recorded on fresh counters (fewer than `u64::MAX`, so
/// no counter wraps), the three layers count `k` errors between them, no
/// more than `k` were recoverable, and every transport closure was a
/// transport error.
pub proof fn lemma_totals_after_errors(es: Seq<BdrpcError>)
    requires
        es.len() < u64::MAX,
    ensures
        record_all(zero_counts(), es).transport + record_all(zero_counts(), es).channel
            + record_all(zero_counts(), es).application == es.len(),
        record_all(zero_counts(), es).recoverable <= es.len(),
        record_all(zero_counts(), es).transport_closures <= record_all(zero_counts(), es).transport,
        record_all(zero_counts(), es).channel_closures <= es.len(),
    decreases es.len(),
{
    if es.len() > 0 {
        lemma_totals_after_errors(es.drop_last());
    }
}

/// Hands each error to the callbacks registered, in the order they were
/// registered.
pub struct ErrorObserver<F> {
    callbacks: Vec<F>,
}

impl<F: Fn(&BdrpcError)> ErrorObserver<F> {
    /// The callbacks registered, in order.
    pub closed spec fn spec_callbacks(&self) -> Seq<F> {
        self.callbacks@
    }

    /// An observer with no callbacks.
    pub fn new() -> (o: Self)
        ensures
            o.spec_callbacks().len() == 0,
    {
        ErrorObserver { callbacks: Vec::new() }
    }

    /// Registers a callback after those registered before.
    pub fn on_error(&mut self, callback: F)
        ensures
            final(self).spec_callbacks() == old(self).spec_callbacks().push(callback),
    {
        self.callbacks.push(callback);
    }

    /// Calls every callback with the error, in order.
    pub fn notify(&self, error: &BdrpcError)
        requires
            forall|i: int| 0 <= i < self.spec_callbacks().len() ==> #[trigger] self.spec_callbacks()[i].requires((error,)),
    {
        let mut i: usize = 0;
        while i < self.callbacks.len()
            invariant
                i <= self.callbacks@.len(),
                forall|k: int| 0 <= k < self.spec_callbacks().len() ==> #[trigger] self.spec_callbacks()[k].requires((error,)),
            decreases self.callbacks@.len() - i,
        {
            let cb = &self.callbacks[i];
            assert(self.spec_callbacks()[i as int].requires((error,)));
            cb(error);
            i = i + 1;
        }
    }

    /// Removes every callback.
    pub fn clear(&mut self)
        ensures
            final(self).spec_callbacks().len() == 0,
    {
        self.callbacks.clear();
    }

    /// The number of callbacks registered.
    pub fn callback_count(&self) -> (r: usize)
        ensures
            r == self.spec_callbacks().len(),
    {
        self.callbacks.len()
    }

    /// The debug form: `ErrorObserver { callback_count: <n> }`.
    pub fn debug_text(&self) -> (s: String)
        ensures
            s@ == "ErrorObserver { callback_count: "@ + decimal(self.spec_callbacks().len()) + " }"@,
    {
        proof {
            reveal_strlit("ErrorObserver { callback_count: ");
            reveal_strlit(" }");
        }
        let mut s = "ErrorObserver { callback_count: ".to_string();
        s.append(decimal_string(self.callbacks.len() as u64).as_str());
        s.append(" }");
        s
    }
}

/// How severe a log record is.
#[derive(Debug, Clone, Copy, PartialEq, Eq, Structural)]
pub enum LogLevel {
    /// Informational.
    Info,
    /// A warning.
    Warn,
    /// An error.
    Error,
}

/// What is logged about an error.
#[derive(Debug, Clone)]
pub struct ErrorLogRecord {
    /// The severity.
    pub level: LogLevel,
    /// What happened.
    pub message: String,
    /// The error's own message.
    pub error: String,
    /// The channel concerned, for channel errors.
    pub channel_id: Option<ChannelId>,
    /// Whether retrying may succeed, for transport and channel errors.
    pub recoverable: Option<bool>,
    /// Whether the transport has to close, for transport errors.
    pub should_close_transport: Option<bool>,
    /// Whether the channel has to close, for channel errors.
    pub should_close_channel: Option<bool>,
}

/// The log record of an error: transport errors at error level with their
/// recoverability and whether the transport closes; channel errors at
/// error level when the channel is closed and at warning level otherwise,
/// with the channel, recoverability and whether the channel closes;
/// application errors at information level.
pub open spec fn log_record_spec(e: BdrpcError, r: ErrorLogRecord) -> bool {
    match e {
        BdrpcError::Transport(t) => {
            &&& r.level == LogLevel::Error
            &&& r.message@ == "Transport error occurred"@
            &&& r.error@ == transport_error_text(t)
            &&& r.channel_id is None
            &&& r.recoverable == Some(bdrpc_error_recoverable(e))
            &&& r.should_close_transport == Some(bdrpc_error_closes_transport(e))
            &&& r.should_close_channel is None
        },
        BdrpcError::Channel(c) => {
            &&& r.level == (if c is Closed { LogLevel::Error } else { LogLevel::Warn })
            &&& r.message@ == (if c is Closed {
                "Channel error occurred (closed)"@
            } else {
                "Channel error occurred"@
            })
            &&& r.error@ == channel_error_text(c)
            &&& r.channel_id == channel_error_id(c)
            &&& r.recoverable == Some(bdrpc_error_recoverable(e))
            &&& r.should_close_transport is None
            &&& r.should_close_channel == Some(bdrpc_error_closes_channel(e))
        },
        BdrpcError::Application(m) => {
            &&& r.level == LogLevel::Info
            &&& r.message@ == "Application error occurred"@
            &&& r.error@ == m@
            &&& r.channel_id is None
            &&& r.recoverable is None
            &&& r.should_close_transport is None
            &&& r.should_close_channel is None
        },
    }
}

/// The record to log for an error.
pub fn log_error(error: &BdrpcError) -> (r: ErrorLogRecord)
    ensures
        log_record_spec(*error, r),
{
    proof {
        reveal_strlit("Transport error occurred");
        reveal_strlit("Channel error occurred (closed)");
        reveal_strlit("Channel error occurred");
        reveal_strlit("Application error occurred");
    }
    match error {
        BdrpcError::Transport(t) => ErrorLogRecord {
            level: LogLevel::Error,
            message: "Transport error occurred".to_string(),
            error: t.to_string(),
            channel_id: None,
            recoverable: Some(error.is_recoverable()),
            should_close_transport: Some(error.should_close_transport()),
            should_close_channel: None,
        },
        BdrpcError::Channel(c) => {
            let closed = c.is_closed();
            ErrorLogRecord {
                level: if closed { LogLevel::Error } else { LogLevel::Warn },
                message: if closed {
                    "Channel error occurred (closed)".to_string()
                } else {
                    "Channel error occurred".to_string()
                },
                error: c.to_string(),
                channel_id: c.channel_id(),
                recoverable: Some(error.is_recoverable()),
                should_close_transport: None,
                should_close_channel: Some(error.should_close_channel()),
            }
        },
        BdrpcError::Application(m) => ErrorLogRecord {
            level: LogLevel::Info,
            message: "Application error occurred".to_string(),
            error: m.clone(),
            channel_id: None,
            recoverable: None,
            should_close_transport: None,
            should_close_channel: None,
        },
    }
}

impl Default for ErrorMetrics {
    fn default() -> (m: Self)
        ensures
            m.spec_counts() == zero_counts(),
    {
        Self::new()
    }
}

impl<F: Fn(&BdrpcError)> Default for ErrorObserver<F> {
    fn default() -> (o: Self)
        ensures
            o.spec_callbacks().len() == 0,
    {
        Self::new()
    }
}

} // verus!
