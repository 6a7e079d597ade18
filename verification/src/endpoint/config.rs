//! Endpoint settings.

use vstd::prelude::*;
use std::time::Duration;
use crate::time::duration_nanos;
use crate::reconnection::traits::ReconnectionStrategy;

verus! {

/// How an endpoint buffers, times out, limits, names and reconnects its
/// connections.
pub struct EndpointConfig {
    /// Messages a channel buffers.
    pub channel_buffer_size: usize,
    /// How long a handshake may take.
    pub handshake_timeout: Duration,
    /// How many connections may be open at once, if limited.
    pub max_connections: Option<usize>,
    /// The largest frame accepted, in bytes.
    pub max_frame_size: usize,
    /// Whether frames carry an integrity check.
    pub enable_frame_integrity: bool,
    /// The endpoint's name, if given.
    pub endpoint_id: Option<String>,
    /// How to reconnect after a connection fails, if a strategy was given;
    /// without one the endpoint does not choose a strategy itself.
    pub reconnection_strategy: Option<Box<dyn ReconnectionStrategy>>,
}

/// Sixteen megabytes: the default largest frame.
pub const DEFAULT_MAX_FRAME_SIZE: usize = 16777216;

/// The default settings: a buffer of 100 messages, a five-second
/// handshake, no connection limit, frames up to 16 MB with integrity
/// checks, no name and no reconnection strategy given.
pub open spec fn is_default_config(c: EndpointConfig) -> bool {
    &&& c.reconnection_strategy is None
    &&& c.channel_buffer_size == 100
    &&& duration_nanos(c.handshake_timeout) == 5_000_000_000
    &&& c.max_connections is None
    &&& c.max_frame_size == DEFAULT_MAX_FRAME_SIZE
    &&& c.enable_frame_integrity
    &&& c.endpoint_id is None
}

/// Why a configuration cannot be used, if it cannot: the first of a zero
/// buffer, a zero frame size and a zero handshake timeout.
pub open spec fn config_problem(c: EndpointConfig) -> Option<Seq<char>> {
    if c.channel_buffer_size == 0 {
        Some("channel_buffer_size must be greater than 0"@)
    } else if c.max_frame_size == 0 {
        Some("max_frame_size must be greater than 0"@)
    } else if duration_nanos(c.handshake_timeout) == 0 {
        Some("handshake_timeout must be greater than 0"@)
    } else {
        None
    }
}

impl EndpointConfig {
    /// The default settings.
    pub fn new() -> (c: Self)
        ensures
            is_default_config(c),
    {
        EndpointConfig {
            channel_buffer_size: 100,
            handshake_timeout: Duration::from_secs(5),
            max_connections: None,
            max_frame_size: DEFAULT_MAX_FRAME_SIZE,
            enable_frame_integrity: true,
            endpoint_id: None,
            reconnection_strategy: None,
        }
    }

    /// Sets the channel buffer size.
    pub fn with_channel_buffer_size(self, size: usize) -> (c: Self)
        ensures
            c == (EndpointConfig { channel_buffer_size: size, ..self }),
    {
        EndpointConfig { channel_buffer_size: size, ..self }
    }

    /// Sets the handshake timeout.
    pub fn with_handshake_timeout(self, timeout: Duration) -> (c: Self)
        ensures
            c == (EndpointConfig { handshake_timeout: timeout, ..self }),
    {
        EndpointConfig { handshake_timeout: timeout, ..self }
    }

    /// Sets the connection limit.
    pub fn with_max_connections(self, max: Option<usize>) -> (c: Self)
        ensures
            c == (EndpointConfig { max_connections: max, ..self }),
    {
        EndpointConfig { max_connections: max, ..self }
    }

    /// Sets the largest frame accepted.
    pub fn with_max_frame_size(self, size: usize) -> (c: Self)
        ensures
            c == (EndpointConfig { max_frame_size: size, ..self }),
    {
        EndpointConfig { max_frame_size: size, ..self }
    }

    /// Turns frame integrity checks on or off.
    pub fn with_frame_integrity(self, enable: bool) -> (c: Self)
        ensures
            c == (EndpointConfig { enable_frame_integrity: enable, ..self }),
    {
        EndpointConfig { enable_frame_integrity: enable, ..self }
    }

    /// Names the endpoint.
    pub fn with_endpoint_id(self, id: String) -> (c: Self)
        ensures
            c == (EndpointConfig { endpoint_id: Some(id), ..self }),
    {
        EndpointConfig { endpoint_id: Some(id), ..self }
    }

    /// Sets the reconnection strategy.
    pub fn with_reconnection_strategy(self, strategy: Box<dyn ReconnectionStrategy>) -> (c: Self)
        ensures
            c == (EndpointConfig { reconnection_strategy: Some(strategy), ..self }),
    {
        EndpointConfig { reconnection_strategy: Some(strategy), ..self }
    }

    /// Checks that the settings can be used: buffer size, frame size and
    /// handshake timeout must all be above zero. The error names the first
    /// that is not.
    pub fn validate(&self) -> (r: Result<(), String>)
        ensures
            r is Ok <==> config_problem(*self) is None,
            r matches Err(m) ==> config_problem(*self) == Some(m@),
    {
        proof {
            reveal_strlit("channel_buffer_size must be greater than 0");
            reveal_strlit("max_frame_size must be greater than 0");
            reveal_strlit("handshake_timeout must be greater than 0");
        }
        if self.channel_buffer_size == 0 {
            return Err("channel_buffer_size must be greater than 0".to_string());
        }
        if self.max_frame_size == 0 {
            return Err("max_frame_size must be greater than 0".to_string());
        }
        if self.handshake_timeout.as_nanos() == 0 {
            return Err("handshake_timeout must be greater than 0".to_string());
        }
        Ok(())
    }
}

impl Default for EndpointConfig {
    fn default() -> (c: Self)
        ensures
            is_default_config(c),
    {
        Self::new()
    }
}

/// The default settings can be used.
pub proof fn lemma_default_config_valid(c: EndpointConfig)
    requires
        is_default_config(c),
    ensures
        config_problem(c) is None,
{
}

} // verus!
