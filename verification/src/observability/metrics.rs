//! Counters of transports and channels.

use vstd::prelude::*;
use std::time::Duration;
use crate::reconnection::traits::inc64;
use crate::backpressure::bounded_queue::u64_add;
use crate::backpressure::unlimited::saturating_diff;
use crate::time::duration_nanos;

verus! {

/// The transport counters, as plain values.
#[derive(Clone, Copy)]
pub struct TransportCounts {
    pub opened: u64,
    pub closed: u64,
    pub bytes_sent: u64,
    pub bytes_received: u64,
    pub connection_errors: u64,
    pub read_errors: u64,
    pub write_errors: u64,
}

/// All transport counters at zero.
pub open spec fn zero_transport_counts() -> TransportCounts {
    TransportCounts {
        opened: 0,
        closed: 0,
        bytes_sent: 0,
        bytes_received: 0,
        connection_errors: 0,
        read_errors: 0,
        write_errors: 0,
    }
}

/// Counts connections, bytes and errors of transports.
#[derive(Debug)]
pub struct TransportMetrics {
    connections_opened: u64,
    connections_closed: u64,
    bytes_sent: u64,
    bytes_received: u64,
    connection_errors: u64,
    read_errors: u64,
    write_errors: u64,
}

impl TransportMetrics {
    /// The counters.
    pub closed spec fn spec_counts(&self) -> TransportCounts {
        TransportCounts {
            opened: self.connections_opened,
            closed: self.connections_closed,
            bytes_sent: self.bytes_sent,
            bytes_received: self.bytes_received,
            connection_errors: self.connection_errors,
            read_errors: self.read_errors,
            write_errors: self.write_errors,
        }
    }

    /// All counters at zero.
    pub fn new() -> (m: Self)
        ensures
            m.spec_counts() == zero_transport_counts(),
    {
        TransportMetrics {
            connections_opened: 0,
            connections_closed: 0,
            bytes_sent: 0,
            bytes_received: 0,
            connection_errors: 0,
            read_errors: 0,
            write_errors: 0,
        }
    }

    /// Counts an opened connection.
    pub fn record_connection_opened(&mut self)
        ensures
            final(self).spec_counts() == (TransportCounts {
                opened: inc64(old(self).spec_counts().opened),
                ..old(self).spec_counts()
            }),
    {
        self.connections_opened = self.connections_opened.wrapping_add(1);
    }

    /// Counts a closed connection.
    pub fn record_connection_closed(&mut self)
        ensures
            final(self).spec_counts() == (TransportCounts {
                closed: inc64(old(self).spec_counts().closed),
                ..old(self).spec_counts()
            }),
    {
        self.connections_closed = self.connections_closed.wrapping_add(1);
    }

    /// Counts bytes sent.
    pub fn record_bytes_sent(&mut self, bytes: u64)
        ensures
            final(self).spec_counts() == (TransportCounts {
                bytes_sent: u64_add(old(self).spec_counts().bytes_sent, bytes),
                ..old(self).spec_counts()
            }),
    {
        self.bytes_sent = self.bytes_sent.wrapping_add(bytes);
    }

    /// Counts bytes received.
    pub fn record_bytes_received(&mut self, bytes: u64)
        ensures
            final(self).spec_counts() == (TransportCounts {
                bytes_received: u64_add(old(self).spec_counts().bytes_received, bytes),
                ..old(self).spec_counts()
            }),
    {
        self.bytes_received = self.bytes_received.wrapping_add(bytes);
    }

    /// Counts a connection error.
    pub fn record_connection_error(&mut self)
        ensures
            final(self).spec_counts() == (TransportCounts {
                connection_errors: inc64(old(self).spec_counts().connection_errors),
                ..old(self).spec_counts()
            }),
    {
        self.connection_errors = self.connection_errors.wrapping_add(1);
    }

    /// Counts a read error.
    pub fn record_read_error(&mut self)
        ensures
            final(self).spec_counts() == (TransportCounts {
                read_errors: inc64(old(self).spec_counts().read_errors),
                ..old(self).spec_counts()
            }),
    {
        self.read_errors = self.read_errors.wrapping_add(1);
    }

    /// Counts a write error.
    pub fn record_write_error(&mut self)
        ensures
            final(self).spec_counts() == (TransportCounts {
                write_errors: inc64(old(self).spec_counts().write_errors),
                ..old(self).spec_counts()
            }),
    {
        self.write_errors = self.write_errors.wrapping_add(1);
    }

    /// Connections open now: opened minus closed, or 0.
    pub fn active_connections(&self) -> (r: u64)
        ensures
            r == saturating_diff(self.spec_counts().opened, self.spec_counts().closed),
    {
        self.connections_opened.saturating_sub(self.connections_closed)
    }

    /// Connections opened.
    pub fn total_connections_opened(&self) -> (r: u64)
        ensures
            r == self.spec_counts().opened,
    {
        self.connections_opened
    }

    /// Connections closed.
    pub fn total_connections_closed(&self) -> (r: u64)
        ensures
            r == self.spec_counts().closed,
    {
        self.connections_closed
    }

    /// Bytes sent.
    pub fn total_bytes_sent(&self) -> (r: u64)
        ensures
            r == self.spec_counts().bytes_sent,
    {
        self.bytes_sent
    }

    /// Bytes received.
    pub fn total_bytes_received(&self) -> (r: u64)
        ensures
            r == self.spec_counts().bytes_received,
    {
        self.bytes_received
    }

    /// Connection errors.
    pub fn total_connection_errors(&self) -> (r: u64)
        ensures
            r == self.spec_counts().connection_errors,
    {
        self.connection_errors
    }

    /// Read errors.
    pub fn total_read_errors(&self) -> (r: u64)
        ensures
            r == self.spec_counts().read_errors,
    {
        self.read_errors
    }

    /// Write errors.
    pub fn total_write_errors(&self) -> (r: u64)
        ensures
            r == self.spec_counts().write_errors,
    {
        self.write_errors
    }

    /// Puts every counter back to zero.
    pub fn reset(&mut self)
        ensures
            final(self).spec_counts() == zero_transport_counts(),
    {
        *self = Self::new();
    }
}

/// The channel counters, as plain values.
#[derive(Clone, Copy)]
pub struct ChannelCounts {
    pub created: u64,
    pub closed: u64,
    pub messages_sent: u64,
    pub messages_received: u64,
    pub send_errors: u64,
    pub receive_errors: u64,
    pub total_latency_us: u64,
    pub latency_count: u64,
}

/// All channel counters at zero.
pub open spec fn zero_channel_counts() -> ChannelCounts {
    ChannelCounts {
        created: 0,
        closed: 0,
        messages_sent: 0,
        messages_received: 0,
        send_errors: 0,
        receive_errors: 0,
        total_latency_us: 0,
        latency_count: 0,
    }
}

/// Whole microseconds of a duration, cut to 64 bits.
pub open spec fn micros_u64(d: Duration) -> u64 {
    (duration_nanos(d) / 1000) as u64
}

/// The average latency in microseconds: total over count, rounded down; 0
/// when nothing was measured.
pub open spec fn average_us(c: ChannelCounts) -> u64 {
    if c.latency_count == 0 { 0 } else { (c.total_latency_us / c.latency_count) as u64 }
}

/// Counts channels, messages, errors and latencies.
#[derive(Debug)]
pub struct ChannelMetrics {
    channels_created: u64,
    channels_closed: u64,
    messages_sent: u64,
    messages_received: u64,
    send_errors: u64,
    receive_errors: u64,
    total_latency_us: u64,
    latency_count: u64,
}

impl ChannelMetrics {
    /// The counters.
    pub closed spec fn spec_counts(&self) -> ChannelCounts {
        ChannelCounts {
            created: self.channels_created,
            closed: self.channels_closed,
            messages_sent: self.messages_sent,
            messages_received: self.messages_received,
            send_errors: self.send_errors,
            receive_errors: self.receive_errors,
            total_latency_us: self.total_latency_us,
            latency_count: self.latency_count,
        }
    }

    /// All counters at zero.
    pub fn new() -> (m: Self)
        ensures
            m.spec_counts() == zero_channel_counts(),
    {
        ChannelMetrics {
            channels_created: 0,
            channels_closed: 0,
            messages_sent: 0,
            messages_received: 0,
            send_errors: 0,
            receive_errors: 0,
            total_latency_us: 0,
            latency_count: 0,
        }
    }

    /// Counts a created channel.
    pub fn record_channel_created(&mut self)
        ensures
            final(self).spec_counts() == (ChannelCounts {
                created: inc64(old(self).spec_counts().created),
                ..old(self).spec_counts()
            }),
    {
        self.channels_created = self.channels_created.wrapping_add(1);
    }

    /// Counts a closed channel.
    pub fn record_channel_closed(&mut self)
        ensures
            final(self).spec_counts() == (ChannelCounts {
                closed: inc64(old(self).spec_counts().closed),
                ..old(self).spec_counts()
            }),
    {
        self.channels_closed = self.channels_closed.wrapping_add(1);
    }

    /// Counts a sent message.
    pub fn record_message_sent(&mut self)
        ensures
            final(self).spec_counts() == (ChannelCounts {
                messages_sent: inc64(old(self).spec_counts().messages_sent),
                ..old(self).spec_counts()
            }),
    {
        self.messages_sent = self.messages_sent.wrapping_add(1);
    }

    /// Counts a received message.
    pub fn record_message_received(&mut self)
        ensures
            final(self).spec_counts() == (ChannelCounts {
                messages_received: inc64(old(self).spec_counts().messages_received),
                ..old(self).spec_counts()
            }),
    {
        self.messages_received = self.messages_received.wrapping_add(1);
    }

    /// Counts a send error.
    pub fn record_send_error(&mut self)
        ensures
            final(self).spec_counts() == (ChannelCounts {
                send_errors: inc64(old(self).spec_counts().send_errors),
                ..old(self).spec_counts()
            }),
    {
        self.send_errors = self.send_errors.wrapping_add(1);
    }

    /// Counts a receive error.
    pub fn record_receive_error(&mut self)
        ensures
            final(self).spec_counts() == (ChannelCounts {
                receive_errors: inc64(old(self).spec_counts().receive_errors),
                ..old(self).spec_counts()
            }),
    {
        self.receive_errors = self.receive_errors.wrapping_add(1);
    }

    /// Adds a latency, in whole microseconds, to the total and counts it.
    pub fn record_latency(&mut self, latency: Duration)
        ensures
            final(self).spec_counts() == (ChannelCounts {
                total_latency_us: u64_add(old(self).spec_counts().total_latency_us, micros_u64(latency)),
                latency_count: inc64(old(self).spec_counts().latency_count),
                ..old(self).spec_counts()
            }),
    {
        let nanos = latency.as_nanos();
        let us = (nanos / 1000) as u64;
        self.total_latency_us = self.total_latency_us.wrapping_add(us);
        self.latency_count = self.latency_count.wrapping_add(1);
    }

    /// Channels open now: created minus closed, or 0.
    pub fn active_channels(&self) -> (r: u64)
        ensures
            r == saturating_diff(self.spec_counts().created, self.spec_counts().closed),
    {
        self.channels_created.saturating_sub(self.channels_closed)
    }

    /// Channels created.
    pub fn total_channels_created(&self) -> (r: u64)
        ensures
            r == self.spec_counts().created,
    {
        self.channels_created
    }

    /// Channels closed.
    pub fn total_channels_closed(&self) -> (r: u64)
        ensures
            r == self.spec_counts().closed,
    {
        self.channels_closed
    }

    /// Messages sent.
    pub fn total_messages_sent(&self) -> (r: u64)
        ensures
            r == self.spec_counts().messages_sent,
    {
        self.messages_sent
    }

    /// Messages received.
    pub fn total_messages_received(&self) -> (r: u64)
        ensures
            r == self.spec_counts().messages_received,
    {
        self.messages_received
    }

    /// Send errors.
    pub fn total_send_errors(&self) -> (r: u64)
        ensures
            r == self.spec_counts().send_errors,
    {
        self.send_errors
    }

    /// Receive errors.
    pub fn total_receive_errors(&self) -> (r: u64)
        ensures
            r == self.spec_counts().receive_errors,
    {
        self.receive_errors
    }

    /// The average latency in microseconds, 0 when nothing was measured.
    pub fn average_latency_us(&self) -> (r: u64)
        ensures
            r == average_us(self.spec_counts()),
    {
        if self.latency_count == 0 {
            0
        } else {
            self.total_latency_us / self.latency_count
        }
    }

    /// The average latency as a duration.
    pub fn average_latency(&self) -> (d: Duration)
        ensures
            duration_nanos(d) == average_us(self.spec_counts()) * 1000,
    {
        Duration::from_micros(self.average_latency_us())
    }

    /// Puts every counter back to zero.
    pub fn reset(&mut self)
        ensures
            final(self).spec_counts() == zero_channel_counts(),
    {
        *self = Self::new();
    }
}

/// After `k` connections are opened and `j <= k` closed on fresh metrics,
/// `k - j` are active.
pub proof fn lemma_active_connections(k: u64, j: u64)
    requires
        j <= k,
    ensures
        saturating_diff(k, j) == k - j,
{
}

impl Default for TransportMetrics {
    fn default() -> (m: Self)
        ensures
            m.spec_counts() == zero_transport_counts(),
    {
        Self::new()
    }
}

impl Default for ChannelMetrics {
    fn default() -> (m: Self)
        ensures
            m.spec_counts() == zero_channel_counts(),
    {
        Self::new()
    }
}

/// The counters after a run of connection events starting from `c`: `true`
/// for a connection opened, `false` for one closed.
pub open spec fn after_connection_events(c: TransportCounts, events: Seq<bool>) -> TransportCounts
    decreases events.len(),
{
    if events.len() == 0 {
        c
    } else {
        let p = after_connection_events(c, events.drop_last());
        if events.last() {
            TransportCounts { opened: inc64(p.opened), ..p }
        } else {
            TransportCounts { closed: inc64(p.closed), ..p }
        }
    }
}

/// How many connections a run of events opened.
pub open spec fn opens_in(events: Seq<bool>) -> nat
    decreases events.len(),
{
    if events.len() == 0 {
        0
    } else {
        opens_in(events.drop_last()) + if events.last() { 1nat } else { 0nat }
    }
}

/// After `o` opens and `c` closes on fresh metrics, in any order (fewer
/// than 2^64 events in all), `o` were opened, `c` were closed, and `o - c`
/// are active, or 0 when more were closed than opened.
pub proof fn lemma_active_after_events(events: Seq<bool>)
    requires
        events.len() < 0x1_0000_0000_0000_0000,
    ensures
        after_connection_events(zero_transport_counts(), events).opened == opens_in(events),
        after_connection_events(zero_transport_counts(), events).closed == events.len() - opens_in(
            events,
        ),
        saturating_diff(
            after_connection_events(zero_transport_counts(), events).opened,
            after_connection_events(zero_transport_counts(), events).closed,
        ) == (if opens_in(events) >= events.len() - opens_in(events) {
            opens_in(events) - (events.len() - opens_in(events))
        } else {
            0
        }),
    decreases events.len(),
{
    if events.len() > 0 {
        lemma_active_after_events(events.drop_last());
        lemma_opens_at_most(events.drop_last());
    }
}

/// A run of events opens no more connections than it has events.
pub proof fn lemma_opens_at_most(events: Seq<bool>)
    ensures
        opens_in(events) <= events.len(),
    decreases events.len(),
{
    if events.len() > 0 {
        lemma_opens_at_most(events.drop_last());
    }
}

/// The counters after recording the latencies `ls` in order, starting
/// from `c`.
pub open spec fn after_latencies(c: ChannelCounts, ls: Seq<Duration>) -> ChannelCounts
    decreases ls.len(),
{
    if ls.len() == 0 {
        c
    } else {
        let p = after_latencies(c, ls.drop_last());
        ChannelCounts {
            total_latency_us: u64_add(p.total_latency_us, micros_u64(ls.last())),
            latency_count: inc64(p.latency_count),
            ..p
        }
    }
}

/// The whole microseconds of the latencies `ls`, added up.
pub open spec fn micros_sum(ls: Seq<Duration>) -> nat
    decreases ls.len(),
{
    if ls.len() == 0 {
        0
    } else {
        micros_sum(ls.drop_last()) + micros_u64(ls.last()) as nat
    }
}

/// After recording the latencies `ls` on fresh metrics, with their sum in
/// microseconds below 2^64 and fewer than 2^64 of them, the average is the
/// sum over their number, rounded down, and 0 when there are none.
pub proof fn lemma_average_after_latencies(ls: Seq<Duration>)
    requires
        micros_sum(ls) < 0x1_0000_0000_0000_0000,
        ls.len() < 0x1_0000_0000_0000_0000,
    ensures
        after_latencies(zero_channel_counts(), ls).total_latency_us == micros_sum(ls),
        after_latencies(zero_channel_counts(), ls).latency_count == ls.len(),
        average_us(after_latencies(zero_channel_counts(), ls)) == (if ls.len() == 0 {
            0
        } else {
            micros_sum(ls) / ls.len()
        }),
    decreases ls.len(),
{
    if ls.len() > 0 {
        lemma_average_after_latencies(ls.drop_last());
    }
}

} // verus!
