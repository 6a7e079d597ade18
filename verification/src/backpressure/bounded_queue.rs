//! A strategy that holds messages back once a fixed number are in flight.

use vstd::prelude::*;
use crate::channel::id::ChannelId;
use crate::backpressure::traits::{BackpressureMetrics, BackpressureStrategy};
use crate::backpressure::unlimited::bump;

verus! {

/// Lets a message through only while fewer than `capacity` are in flight.
#[derive(Debug)]
pub struct BoundedQueue {
    capacity: usize,
    current_depth: usize,
    messages_sent: u64,
    messages_received: u64,
    wait_time_ms: u64,
}

/// `n + 1` on `usize`, wrapping around.
pub open spec fn usize_inc(n: usize) -> usize {
    if n == usize::MAX { 0 } else { (n + 1) as usize }
}

/// `n - 1` on `usize`, wrapping around.
pub open spec fn usize_dec(n: usize) -> usize {
    if n == 0 { usize::MAX } else { (n - 1) as usize }
}

/// `a + b` on `u64`, wrapping around.
pub open spec fn u64_add(a: u64, b: u64) -> u64 {
    ((a as nat + b as nat) % 0x1_0000_0000_0000_0000) as u64
}

impl BoundedQueue {
    /// The view of the strategy: its counters.
    pub closed spec fn spec_metrics(&self) -> BackpressureMetrics {
        BackpressureMetrics {
            queue_depth: self.current_depth,
            capacity: self.capacity,
            messages_sent: self.messages_sent,
            messages_received: self.messages_received,
            wait_time_ms: self.wait_time_ms,
        }
    }

    /// An empty queue that admits up to `capacity` messages. A capacity of
    /// zero is refused.
    pub fn new(capacity: usize) -> (q: Self)
        requires
            capacity > 0,
        ensures
            q.spec_metrics() == BackpressureMetrics::new_spec(capacity),
    {
        BoundedQueue {
            capacity,
            current_depth: 0,
            messages_sent: 0,
            messages_received: 0,
            wait_time_ms: 0,
        }
    }

    /// The number of messages in flight.
    pub fn queue_depth(&self) -> (r: usize)
        ensures
            r == self.spec_metrics().queue_depth,
    {
        self.current_depth
    }

    /// The number of messages that may be in flight.
    pub fn capacity(&self) -> (r: usize)
        ensures
            r == self.spec_metrics().capacity,
    {
        self.capacity
    }

    /// Whether a waiting sender may go on: fewer than `capacity` messages
    /// are in flight.
    pub fn has_capacity(&self) -> (r: bool)
        ensures
            r == (self.spec_metrics().queue_depth < self.spec_metrics().capacity),
    {
        self.current_depth < self.capacity
    }

    /// Adds the time a sender spent waiting for capacity.
    pub fn record_wait(&mut self, elapsed_ms: u64)
        ensures
            final(self).spec_metrics() == (BackpressureMetrics {
                wait_time_ms: u64_add(old(self).spec_metrics().wait_time_ms, elapsed_ms),
                ..old(self).spec_metrics()
            }),
    {
        self.wait_time_ms = self.wait_time_ms.wrapping_add(elapsed_ms);
    }

    /// Counts a received message and tells whether the queue had been at
    /// capacity, in which case a waiting sender is to be woken.
    pub fn release(&mut self) -> (wake: bool)
        ensures
            wake == (old(self).spec_metrics().queue_depth >= old(self).spec_metrics().capacity),
            final(self).spec_metrics() == (BackpressureMetrics {
                queue_depth: usize_dec(old(self).spec_metrics().queue_depth),
                messages_received: bump(old(self).spec_metrics().messages_received),
                ..old(self).spec_metrics()
            }),
    {
        let prev = self.current_depth;
        self.current_depth = self.current_depth.wrapping_sub(1);
        self.messages_received = self.messages_received.wrapping_add(1);
        prev >= self.capacity
    }
}

impl BackpressureStrategy for BoundedQueue {
    /// True while `queue_depth` is below the capacity.
    fn should_send(&self, channel_id: &ChannelId, queue_depth: usize) -> (r: bool)
        ensures
            r == (queue_depth < self.spec_metrics().capacity),
    {
        queue_depth < self.capacity
    }

    fn on_message_sent(&mut self, channel_id: &ChannelId)
        ensures
            final(self).spec_metrics() == (BackpressureMetrics {
                queue_depth: usize_inc(old(self).spec_metrics().queue_depth),
                messages_sent: bump(old(self).spec_metrics().messages_sent),
                ..old(self).spec_metrics()
            }),
    {
        self.current_depth = self.current_depth.wrapping_add(1);
        self.messages_sent = self.messages_sent.wrapping_add(1);
    }

    fn on_message_received(&mut self, channel_id: &ChannelId)
        ensures
            final(self).spec_metrics() == (BackpressureMetrics {
                queue_depth: usize_dec(old(self).spec_metrics().queue_depth),
                messages_received: bump(old(self).spec_metrics().messages_received),
                ..old(self).spec_metrics()
            }),
    {
        let _ = self.release();
    }

    fn metrics(&self) -> (m: BackpressureMetrics)
        ensures
            m == self.spec_metrics(),
    {
        BackpressureMetrics {
            queue_depth: self.current_depth,
            capacity: self.capacity,
            messages_sent: self.messages_sent,
            messages_received: self.messages_received,
            wait_time_ms: self.wait_time_ms,
        }
    }

    fn name(&self) -> (r: &str)
        ensures
            r@ == "BoundedQueue"@,
    {
        "BoundedQueue"
    }
}

/// Counting a message out and then back in leaves the depth where it was.
pub proof fn lemma_send_then_receive_restores_depth(depth: usize)
    ensures
        usize_dec(usize_inc(depth)) == depth,
{
}

/// A sender is admitted exactly while the depth is below the capacity, and
/// counting one message out then back in admits the same senders as
/// before.
pub proof fn lemma_admission_after_round_trip(depth: usize, capacity: usize)
    ensures
        (usize_dec(usize_inc(depth)) < capacity) == (depth < capacity),
{
}

} // verus!
