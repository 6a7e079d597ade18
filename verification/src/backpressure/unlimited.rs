//! A strategy that never holds a message back.

use vstd::prelude::*;
use crate::channel::id::ChannelId;
use crate::backpressure::traits::{BackpressureMetrics, BackpressureStrategy};

verus! {

/// Lets every message through and only counts them.
#[derive(Debug)]
pub struct Unlimited {
    messages_sent: u64,
    messages_received: u64,
}

/// One more, wrapping around at the end of `u64`.
pub open spec fn bump(n: u64) -> u64 {
    ((n as nat + 1) % 0x1_0000_0000_0000_0000) as u64
}

/// `a - b`, or 0 when `b` is larger.
pub open spec fn saturating_diff(a: u64, b: u64) -> u64 {
    if a >= b { (a - b) as u64 } else { 0 }
}

impl Unlimited {
    /// Messages counted as sent.
    pub closed spec fn spec_sent(&self) -> u64 {
        self.messages_sent
    }

    /// Messages counted as received.
    pub closed spec fn spec_received(&self) -> u64 {
        self.messages_received
    }

    /// A strategy with both counters at zero.
    pub fn new() -> (s: Self)
        ensures
            s.spec_sent() == 0,
            s.spec_received() == 0,
    {
        Unlimited { messages_sent: 0, messages_received: 0 }
    }
}

impl BackpressureStrategy for Unlimited {
    /// Always true.
    fn should_send(&self, channel_id: &ChannelId, queue_depth: usize) -> (r: bool)
        ensures
            r,
    {
        true
    }

    fn on_message_sent(&mut self, channel_id: &ChannelId)
        ensures
            final(self).spec_sent() == bump(old(self).spec_sent()),
            final(self).spec_received() == old(self).spec_received(),
    {
        self.messages_sent = self.messages_sent.wrapping_add(1);
    }

    fn on_message_received(&mut self, channel_id: &ChannelId)
        ensures
            final(self).spec_received() == bump(old(self).spec_received()),
            final(self).spec_sent() == old(self).spec_sent(),
    {
        self.messages_received = self.messages_received.wrapping_add(1);
    }

    /// The counters; the depth is what was sent and not received, the
    /// capacity is unbounded and no time is spent waiting.
    fn metrics(&self) -> (m: BackpressureMetrics)
        ensures
            m == (BackpressureMetrics {
                queue_depth: saturating_diff(self.spec_sent(), self.spec_received()) as usize,
                capacity: usize::MAX,
                messages_sent: self.spec_sent(),
                messages_received: self.spec_received(),
                wait_time_ms: 0,
            }),
    {
        let sent = self.messages_sent;
        let received = self.messages_received;
        BackpressureMetrics {
            queue_depth: sent.saturating_sub(received) as usize,
            capacity: usize::MAX,
            messages_sent: sent,
            messages_received: received,
            wait_time_ms: 0,
        }
    }

    fn name(&self) -> (r: &str)
        ensures
            r@ == "Unlimited"@,
    {
        "Unlimited"
    }
}

impl Default for Unlimited {
    fn default() -> (s: Self)
        ensures
            s.spec_sent() == 0,
            s.spec_received() == 0,
    {
        Self::new()
    }
}

} // verus!
