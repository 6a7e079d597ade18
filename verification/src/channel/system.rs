//! The system protocol: control messages exchanged on channel 0 to create
//! and close channels and to check liveness.

use vstd::prelude::*;
use std::collections::HashMap;
use crate::channel::id::ChannelId;
use crate::channel::protocol::Protocol;
use crate::endpoint::direction::ProtocolDirection;

verus! {

/// The number of the channel that carries the system protocol.
pub const SYSTEM_CHANNEL_NUMBER: u64 = 0;

/// The channel that carries the system protocol: channel 0.
pub fn system_channel_id() -> (id: ChannelId)
    ensures
        id.0 == SYSTEM_CHANNEL_NUMBER,
{
    ChannelId(SYSTEM_CHANNEL_NUMBER)
}

/// Control messages of the system channel.
#[derive(Debug, Clone)]
pub enum SystemProtocol {
    /// Asks the peer to open a channel for a protocol.
    ChannelCreateRequest {
        channel_id: ChannelId,
        protocol_name: String,
        protocol_version: u32,
        direction: ProtocolDirection,
        buffer_size: Option<usize>,
        metadata: HashMap<String, String>,
    },
    /// Answers a request to open a channel.
    ChannelCreateResponse { channel_id: ChannelId, success: bool, error: Option<String> },
    /// Tells the peer that a channel is being closed.
    ChannelCloseNotification { channel_id: ChannelId, reason: String },
    /// Confirms that a channel was closed.
    ChannelCloseAck { channel_id: ChannelId },
    /// Checks that the peer is alive.
    Ping { timestamp: u64 },
    /// Answers a ping.
    Pong { timestamp: u64 },
}

/// The method name of a system message.
pub open spec fn system_method_name(m: SystemProtocol) -> Seq<char> {
    match m {
        SystemProtocol::ChannelCreateRequest { .. } => "channel_create_request"@,
        SystemProtocol::ChannelCreateResponse { .. } => "channel_create_response"@,
        SystemProtocol::ChannelCloseNotification { .. } => "channel_close_notification"@,
        SystemProtocol::ChannelCloseAck { .. } => "channel_close_ack"@,
        SystemProtocol::Ping { .. } => "ping"@,
        SystemProtocol::Pong { .. } => "pong"@,
    }
}

/// Whether a system message is a request: creation requests, close
/// notifications and pings are; their answers are not.
pub open spec fn system_is_request(m: SystemProtocol) -> bool {
    m is ChannelCreateRequest || m is ChannelCloseNotification || m is Ping
}

impl Protocol for SystemProtocol {
    fn method_name(&self) -> (r: &'static str)
        ensures
            r@ == system_method_name(*self),
    {
        proof {
            reveal_strlit("channel_create_request");
            reveal_strlit("channel_create_response");
            reveal_strlit("channel_close_notification");
            reveal_strlit("channel_close_ack");
            reveal_strlit("ping");
            reveal_strlit("pong");
        }
        match self {
            SystemProtocol::ChannelCreateRequest { .. } => "channel_create_request",
            SystemProtocol::ChannelCreateResponse { .. } => "channel_create_response",
            SystemProtocol::ChannelCloseNotification { .. } => "channel_close_notification",
            SystemProtocol::ChannelCloseAck { .. } => "channel_close_ack",
            SystemProtocol::Ping { .. } => "ping",
            SystemProtocol::Pong { .. } => "pong",
        }
    }

    fn is_request(&self) -> (r: bool)
        ensures
            r == system_is_request(*self),
    {
        match self {
            SystemProtocol::ChannelCreateRequest { .. } => true,
            SystemProtocol::ChannelCloseNotification { .. } => true,
            SystemProtocol::Ping { .. } => true,
            _ => false,
        }
    }
}

} // verus!
