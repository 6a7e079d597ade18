//! The backpressure strategy trait and its metrics.

use vstd::prelude::*;
use crate::channel::id::ChannelId;

verus! {

/// A snapshot of a strategy's counters.
#[derive(Debug, Clone, Copy, PartialEq, Eq, Structural)]
pub struct BackpressureMetrics {
    /// Messages sent and not yet received.
    pub queue_depth: usize,
    /// How many messages may be in flight.
    pub capacity: usize,
    /// Messages sent so far.
    pub messages_sent: u64,
    /// Messages received so far.
    pub messages_received: u64,
    /// Milliseconds spent waiting for capacity.
    pub wait_time_ms: u64,
}

impl BackpressureMetrics {
    /// Empty counters for the given capacity.
    pub open spec fn new_spec(capacity: usize) -> Self {
        BackpressureMetrics {
            queue_depth: 0,
            capacity,
            messages_sent: 0,
            messages_received: 0,
            wait_time_ms: 0,
        }
    }

    /// Empty counters for the given capacity.
    pub fn new(capacity: usize) -> (m: Self)
        ensures
            m == Self::new_spec(capacity),
    {
        BackpressureMetrics {
            queue_depth: 0,
            capacity,
            messages_sent: 0,
            messages_received: 0,
            wait_time_ms: 0,
        }
    }

    /// Whether the queue holds as many messages as it may, or more.
    pub fn is_full(&self) -> (r: bool)
        ensures
            r == (self.queue_depth >= self.capacity),
    {
        self.queue_depth >= self.capacity
    }

    /// Whether no message is in flight.
    pub fn is_empty(&self) -> (r: bool)
        ensures
            r == (self.queue_depth == 0),
    {
        self.queue_depth == 0
    }
}

/// Decides whether a channel may send now, and counts the messages that
/// go through. Waiting for capacity is left to the caller, which asks
/// again after a message was received.
pub trait BackpressureStrategy {
    /// Whether a message may be sent while `queue_depth` are in flight.
    fn should_send(&self, channel_id: &ChannelId, queue_depth: usize) -> bool;

    /// Counts a sent message.
    fn on_message_sent(&mut self, channel_id: &ChannelId);

    /// Counts a received message.
    fn on_message_received(&mut self, channel_id: &ChannelId);

    /// A snapshot of the counters.
    fn metrics(&self) -> BackpressureMetrics;

    /// The strategy's name.
    fn name(&self) -> &str;
}

} // verus!
