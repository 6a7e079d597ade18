//! The decisions of a connection's life: framing handshake messages,
//! checking the peer's hello, concluding the negotiation, and answering
//! the messages of the system channel.

use vstd::prelude::*;
use std::collections::HashMap;
use crate::channel::id::ChannelId;
use crate::channel::system::{SystemProtocol, SYSTEM_CHANNEL_NUMBER};
use crate::endpoint::registry::{Connection, find_negotiated};
use crate::endpoint::direction::ProtocolDirection;
use crate::endpoint::error::EndpointError;
use crate::error::TransportError;
use crate::reconnection::traits::ReconnectionStrategy;
use std::time::Duration;
use crate::time::duration_nanos;
use crate::endpoint::handshake::{
    HandshakeMessage, NegotiatedProtocol, ProtocolCapability, caps_view, negs_view, negotiate_spec,
    negotiate_protocols,
};
use crate::endpoint::negotiator::{ChannelNegotiator, decision_view};
use crate::text::{decimal, decimal_string, str_eq};

verus! {

/// The number that four bytes spell, most significant first.
pub open spec fn be_value(b: [u8; 4]) -> nat {
    b[0] as nat * 16777216 + b[1] as nat * 65536 + b[2] as nat * 256 + b[3] as nat
}

/// The four-byte length prefix of a frame, most significant byte first.
pub fn encode_frame_length(len: u32) -> (b: [u8; 4])
    ensures
        be_value(b) == len,
{
    let b0 = (len / 16777216) as u8;
    let b1 = ((len / 65536) % 256) as u8;
    let b2 = ((len / 256) % 256) as u8;
    let b3 = (len % 256) as u8;
    let b = [b0, b1, b2, b3];
    assert(b[0] == b0 && b[1] == b1 && b[2] == b2 && b[3] == b3);
    b
}

/// The length that a four-byte prefix announces.
pub fn decode_frame_length(b: [u8; 4]) -> (len: u32)
    ensures
        len == be_value(b),
{
    (b[0] as u32) * 16777216 + (b[1] as u32) * 65536 + (b[2] as u32) * 256 + (b[3] as u32)
}

/// A length prefix is determined by the length it announces: two prefixes
/// that announce the same length are the same bytes. So the prefix that
/// `encode_frame_length` writes for a length is the only one that
/// `decode_frame_length` reads back as that length.
pub proof fn lemma_frame_prefix_unique(a: [u8; 4], b: [u8; 4])
    requires
        be_value(a) == be_value(b),
    ensures
        a@ == b@,
{
    let (a0, a1, a2, a3) = (a[0] as int, a[1] as int, a[2] as int, a[3] as int);
    let (b0, b1, b2, b3) = (b[0] as int, b[1] as int, b[2] as int, b[3] as int);
    assert(a0 == b0 && a1 == b1 && a2 == b2 && a3 == b3) by (nonlinear_arith)
        requires
            0 <= a0 < 256,
            0 <= a1 < 256,
            0 <= a2 < 256,
            0 <= a3 < 256,
            0 <= b0 < 256,
            0 <= b1 < 256,
            0 <= b2 < 256,
            0 <= b3 < 256,
            a0 * 16777216 + a1 * 65536 + a2 * 256 + a3 == b0 * 16777216 + b1 * 65536 + b2 * 256 + b3,
    {
    }
    assert(a@ =~= b@);
}

/// The error for a frame longer than allowed.
pub open spec fn too_large_text(what: Seq<char>, len: nat) -> Seq<char> {
    what + " message too large: "@ + decimal(len) + " bytes"@
}

/// The length announced by a frame prefix, if it does not exceed
/// `max_frame_size`; otherwise the handshake fails, saying which message
/// (`what`) was too large and how large.
pub fn check_frame_length(prefix: [u8; 4], max_frame_size: usize, what: &str) -> (r: Result<
    usize,
    EndpointError,
>)
    ensures
        be_value(prefix) <= max_frame_size ==> r == Ok::<usize, EndpointError>(be_value(prefix) as usize),
        be_value(prefix) > max_frame_size ==> (r matches Err(EndpointError::HandshakeFailed { reason })
            && reason@ == too_large_text(what@, be_value(prefix))),
{
    proof {
        reveal_strlit(" message too large: ");
        reveal_strlit(" bytes");
    }
    let len = decode_frame_length(prefix);
    if len as usize > max_frame_size {
        let mut reason = what.to_string();
        reason.append(" message too large: ");
        reason.append(decimal_string(len as u64).as_str());
        reason.append(" bytes");
        Err(EndpointError::HandshakeFailed { reason })
    } else {
        Ok(len as usize)
    }
}

/// The identifier of the connection on transport `n`: "conn-<n>".
pub fn connection_id_for(n: u64) -> (s: String)
    ensures
        s@ == "conn-"@ + decimal(n as nat),
{
    proof {
        reveal_strlit("conn-");
    }
    let mut s = "conn-".to_string();
    s.append(decimal_string(n).as_str());
    s
}

/// Our hello: our name, serializer, offers and version.
pub fn hello_message(
    endpoint_id: &str,
    serializer: &str,
    protocols: Vec<ProtocolCapability>,
    version: &str,
) -> (m: HandshakeMessage)
    ensures
        m matches HandshakeMessage::Hello { endpoint_id: Some(id), serializer: s, protocols: p, bdrpc_version: v }
            && id@ == endpoint_id@ && s@ == serializer@ && p == protocols && v@ == version@,
{
    HandshakeMessage::Hello {
        endpoint_id: Some(endpoint_id.to_string()),
        serializer: serializer.to_string(),
        protocols,
        bdrpc_version: version.to_string(),
    }
}

/// The outcome of a handshake step: the value to go on with, or the error
/// and, if one is due, the message to send the peer before giving up.
pub type StepResult<T> = Result<T, (EndpointError, Option<HandshakeMessage>)>;

/// How the side that connected checks the peer's hello: a hello with our
/// serializer gives the peer's offers; a hello with another serializer, an
/// error message or any other message ends the handshake.
pub fn check_peer_hello(msg: HandshakeMessage, our_serializer: &str) -> (r: Result<
    Vec<ProtocolCapability>,
    EndpointError,
>)
    ensures
        match msg {
            HandshakeMessage::Hello { serializer, protocols, .. } => if serializer@ == our_serializer@ {
                r == Ok::<Vec<ProtocolCapability>, EndpointError>(protocols)
            } else {
                r matches Err(EndpointError::SerializerMismatch { ours, theirs }) && ours@
                    == our_serializer@ && theirs == serializer
            },
            HandshakeMessage::Error { message } => r matches Err(
                EndpointError::HandshakeFailed { reason },
            ) && reason == message,
            HandshakeMessage::Ack { .. } => r matches Err(EndpointError::HandshakeFailed { reason })
                && reason@ == "Unexpected handshake message"@,
        },
{
    proof {
        reveal_strlit("Unexpected handshake message");
    }
    match msg {
        HandshakeMessage::Hello { serializer, protocols, .. } => {
            if str_eq(serializer.as_str(), our_serializer) {
                Ok(protocols)
            } else {
                Err(
                    EndpointError::SerializerMismatch {
                        ours: our_serializer.to_string(),
                        theirs: serializer,
                    },
                )
            }
        },
        HandshakeMessage::Error { message } => Err(EndpointError::HandshakeFailed { reason: message }),
        HandshakeMessage::Ack { .. } => Err(
            EndpointError::HandshakeFailed { reason: "Unexpected handshake message".to_string() },
        ),
    }
}

/// The message a server sends when the serializers differ.
pub open spec fn mismatch_text(ours: Seq<char>, theirs: Seq<char>) -> Seq<char> {
    "Serializer mismatch: server uses '"@ + ours + "', client uses '"@ + theirs + "'"@
}

/// How the side that accepted checks the client's hello. With
/// `our_serializer` given, a hello with another serializer is answered
/// with an error message and ends the handshake; without it, serializers
/// are not compared. An error message, or any message other than a hello,
/// ends the handshake without an answer.
pub fn check_client_hello(msg: HandshakeMessage, our_serializer: Option<&str>) -> (r: StepResult<
    Vec<ProtocolCapability>,
>)
    ensures
        match msg {
            HandshakeMessage::Hello { serializer, protocols, .. } => match our_serializer {
                Some(ours) => if serializer@ == ours@ {
                    r == StepResult::Ok(protocols)
                } else {
                    r matches Err((EndpointError::SerializerMismatch { ours: o, theirs }, Some(HandshakeMessage::Error { message })))
                        && o@ == ours@ && theirs == serializer && message@ == mismatch_text(ours@, serializer@)
                },
                None => r == StepResult::Ok(protocols),
            },
            HandshakeMessage::Error { message } => r matches Err((EndpointError::HandshakeFailed { reason }, None))
                && reason == message,
            HandshakeMessage::Ack { .. } => r matches Err((EndpointError::HandshakeFailed { reason }, None))
                && reason@ == "Expected Hello message"@,
        },
{
    proof {
        reveal_strlit("Expected Hello message");
        reveal_strlit("Serializer mismatch: server uses '");
        reveal_strlit("', client uses '");
        reveal_strlit("'");
    }
    match msg {
        HandshakeMessage::Hello { serializer, protocols, .. } => match our_serializer {
            Some(ours) => {
                if str_eq(serializer.as_str(), ours) {
                    Ok(protocols)
                } else {
                    let mut message = "Serializer mismatch: server uses '".to_string();
                    message.append(ours);
                    message.append("', client uses '");
                    message.append(serializer.as_str());
                    message.append("'");
                    Err(
                        (
                            EndpointError::SerializerMismatch {
                                ours: ours.to_string(),
                                theirs: serializer,
                            },
                            Some(HandshakeMessage::Error { message }),
                        ),
                    )
                }
            },
            None => Ok(protocols),
        },
        HandshakeMessage::Error { message } => Err(
            (EndpointError::HandshakeFailed { reason: message }, None),
        ),
        HandshakeMessage::Ack { .. } => Err(
            (EndpointError::HandshakeFailed { reason: "Expected Hello message".to_string() }, None),
        ),
    }
}

/// Concludes the negotiation: the protocols both sides can use, or, when
/// there are none, a failed handshake; with `tell_peer`, the peer is sent
/// an error message first.
pub fn conclude_negotiation(
    ours: &Vec<ProtocolCapability>,
    peers: &Vec<ProtocolCapability>,
    tell_peer: bool,
) -> (r: StepResult<Vec<NegotiatedProtocol>>)
    ensures
        negotiate_spec(caps_view(ours@), caps_view(peers@)).len() > 0 ==> (r matches Ok(v)
            && negs_view(v@) == negotiate_spec(caps_view(ours@), caps_view(peers@))),
        negotiate_spec(caps_view(ours@), caps_view(peers@)).len() == 0 ==> (r matches Err((EndpointError::HandshakeFailed { reason }, reply))
            && reason@ == "No compatible protocols found"@
            && (tell_peer ==> (reply matches Some(HandshakeMessage::Error { message })
                && message@ == "No compatible protocols found"@))
            && (!tell_peer ==> reply is None)),
{
    proof {
        reveal_strlit("No compatible protocols found");
    }
    let negotiated = negotiate_protocols(ours, peers);
    if negotiated.len() == 0 {
        let reply = if tell_peer {
            Some(HandshakeMessage::Error { message: "No compatible protocols found".to_string() })
        } else {
            None
        };
        Err(
            (EndpointError::HandshakeFailed { reason: "No compatible protocols found".to_string() },
            reply),
        )
    } else {
        Ok(negotiated)
    }
}

/// The direction in which a negotiated protocol can be used from our
/// side, if it can be used at all.
pub open spec fn usable_direction_spec(we_can_call: bool, we_can_respond: bool) -> Option<ProtocolDirection> {
    if we_can_call && we_can_respond {
        Some(ProtocolDirection::Bidirectional)
    } else if we_can_call {
        Some(ProtocolDirection::CallOnly)
    } else if we_can_respond {
        Some(ProtocolDirection::RespondOnly)
    } else {
        None
    }
}

/// The direction in which a negotiated protocol can be used from our
/// side, if it can be used at all.
pub fn usable_direction(we_can_call: bool, we_can_respond: bool) -> (r: Option<ProtocolDirection>)
    ensures
        r == usable_direction_spec(we_can_call, we_can_respond),
{
    if we_can_call && we_can_respond {
        Some(ProtocolDirection::Bidirectional)
    } else if we_can_call {
        Some(ProtocolDirection::CallOnly)
    } else if we_can_respond {
        Some(ProtocolDirection::RespondOnly)
    } else {
        None
    }
}

/// The reason given when a negotiated protocol can be used in neither
/// direction.
pub open spec fn no_direction_text() -> Seq<char> {
    "Protocol has no usable direction (neither call nor respond capability)"@
}

/// The direction in which to open a channel for `protocol_name` on a
/// connection: the protocol must have been negotiated on it, and be usable
/// in some direction; `channel_id` is the channel about to be opened.
pub fn channel_direction_for(conn: &Connection, protocol_name: &str, channel_id: ChannelId) -> (r:
    Result<ProtocolDirection, EndpointError>)
    ensures
        match find_negotiated(conn.spec_protocols(), protocol_name@) {
            None => r matches Err(EndpointError::ProtocolNotRegistered { protocol })
                && protocol@ == protocol_name@,
            Some(k) => match usable_direction_spec(
                conn.spec_protocols()[k].we_can_call,
                conn.spec_protocols()[k].we_can_respond,
            ) {
                Some(d) => r == Ok::<ProtocolDirection, EndpointError>(d),
                None => r matches Err(
                    EndpointError::ChannelCreationFailed { connection_id, protocol, channel_id: c, reason },
                ) && connection_id@ == conn.spec_id() && protocol@ == protocol_name@ && c
                    == channel_id && reason@ == no_direction_text(),
            },
        },
{
    proof {
        reveal_strlit("Protocol has no usable direction (neither call nor respond capability)");
    }
    match conn.get_protocol(protocol_name) {
        None => Err(EndpointError::ProtocolNotRegistered { protocol: protocol_name.to_string() }),
        Some(p) => match usable_direction(p.we_can_call, p.we_can_respond) {
            Some(d) => Ok(d),
            None => Err(
                EndpointError::ChannelCreationFailed {
                    connection_id: conn.id().to_string(),
                    protocol: protocol_name.to_string(),
                    channel_id,
                    reason: "Protocol has no usable direction (neither call nor respond capability)".to_string(),
                },
            ),
        },
    }
}

/// The system channel (number 0) cannot be requested; every other channel
/// can.
pub fn check_channel_request(channel_id: ChannelId) -> (r: Result<(), EndpointError>)
    ensures
        channel_id.0 == SYSTEM_CHANNEL_NUMBER ==> (r matches Err(
            EndpointError::InvalidConfiguration { reason },
        ) && reason@ == "Cannot request system channel (ID 0)"@),
        channel_id.0 != SYSTEM_CHANNEL_NUMBER ==> r is Ok,
{
    proof {
        reveal_strlit("Cannot request system channel (ID 0)");
    }
    if channel_id.0 == SYSTEM_CHANNEL_NUMBER {
        Err(
            EndpointError::InvalidConfiguration {
                reason: "Cannot request system channel (ID 0)".to_string(),
            },
        )
    } else {
        Ok(())
    }
}

/// A second request for a channel whose request is still pending is
/// refused; otherwise the request may go ahead.
pub fn check_request_not_pending(
    already_pending: bool,
    connection_id: &str,
    protocol: &str,
    channel_id: ChannelId,
) -> (r: Result<(), EndpointError>)
    ensures
        !already_pending ==> r is Ok,
        already_pending ==> (r matches Err(
            EndpointError::ChannelCreationFailed { connection_id: c, protocol: p, channel_id: i, reason },
        ) && c@ == connection_id@ && p@ == protocol@ && i == channel_id && reason@
            == "Channel request already pending for this ID"@),
{
    proof {
        reveal_strlit("Channel request already pending for this ID");
    }
    if already_pending {
        Err(
            EndpointError::ChannelCreationFailed {
                connection_id: connection_id.to_string(),
                protocol: protocol.to_string(),
                channel_id,
                reason: "Channel request already pending for this ID".to_string(),
            },
        )
    } else {
        Ok(())
    }
}

/// What a request to open a channel came to: `None` when no answer came
/// within the timeout of `timeout_secs` seconds, `Some(None)` when the
/// answer could no longer arrive, and `Some(Some(outcome))` for the peer's
/// answer. Acceptance is `Ok`; a refusal, a closed answer and a timeout
/// are each their own error, naming the connection, protocol and channel.
pub fn channel_request_outcome(
    connection_id: &str,
    protocol: &str,
    channel_id: ChannelId,
    answer: Option<Option<Result<(), String>>>,
    timeout_secs: u64,
) -> (r: Result<(), EndpointError>)
    ensures
        match answer {
            Some(Some(Ok(()))) => r is Ok,
            Some(Some(Err(m))) => r matches Err(
                EndpointError::ChannelRequestRejected { connection_id: c, protocol: p, channel_id: i, reason },
            ) && c@ == connection_id@ && p@ == protocol@ && i == channel_id && reason == m,
            Some(None) => r matches Err(
                EndpointError::ChannelCreationFailed { connection_id: c, protocol: p, channel_id: i, reason },
            ) && c@ == connection_id@ && p@ == protocol@ && i == channel_id && reason@
                == "Channel creation response channel closed unexpectedly"@,
            None => r matches Err(
                EndpointError::ChannelRequestTimeout { connection_id: c, protocol: p, channel_id: i, timeout_secs: t },
            ) && c@ == connection_id@ && p@ == protocol@ && i == channel_id && t == timeout_secs,
        },
{
    proof {
        reveal_strlit("Channel creation response channel closed unexpectedly");
    }
    match answer {
        Some(Some(Ok(()))) => Ok(()),
        Some(Some(Err(reason))) => Err(
            EndpointError::ChannelRequestRejected {
                connection_id: connection_id.to_string(),
                protocol: protocol.to_string(),
                channel_id,
                reason,
            },
        ),
        Some(None) => Err(
            EndpointError::ChannelCreationFailed {
                connection_id: connection_id.to_string(),
                protocol: protocol.to_string(),
                channel_id,
                reason: "Channel creation response channel closed unexpectedly".to_string(),
            },
        ),
        None => Err(
            EndpointError::ChannelRequestTimeout {
                connection_id: connection_id.to_string(),
                protocol: protocol.to_string(),
                channel_id,
                timeout_secs,
            },
        ),
    }
}

/// The refusal to accept channels on a listener that is not in manual
/// mode.
pub open spec fn manual_refusal_text() -> Seq<char> {
    "accept_channels() can only be called on listeners created with listen_manual(). Use listen() + get_channels() for automatic mode."@
}

/// Channels are accepted one by one only on a listener in manual mode.
pub fn check_manual_listener(manual: bool) -> (r: Result<(), EndpointError>)
    ensures
        manual ==> r is Ok,
        !manual ==> (r matches Err(EndpointError::InvalidConfiguration { reason }) && reason@
            == manual_refusal_text()),
{
    proof {
        reveal_strlit(
            "accept_channels() can only be called on listeners created with listen_manual(). Use listen() + get_channels() for automatic mode.",
        );
    }
    if manual {
        Ok(())
    } else {
        Err(
            EndpointError::InvalidConfiguration {
                reason: "accept_channels() can only be called on listeners created with listen_manual(). Use listen() + get_channels() for automatic mode.".to_string(),
            },
        )
    }
}

/// What to do with a message received on the system channel.
#[derive(Debug)]
pub enum SystemAction {
    /// Send this message back on the system channel.
    Reply(SystemProtocol),
    /// Complete the pending request for the channel with this outcome.
    CompleteRequest { channel_id: ChannelId, result: Result<(), String> },
    /// Remove the channel, then send this acknowledgement.
    CloseChannel { channel_id: ChannelId, ack: SystemProtocol },
    /// Nothing to do.
    Nothing,
}

/// The answer to a request to open a channel, given the negotiator's
/// decision: accepted, rejected without a reason, or rejected with one.
pub open spec fn create_response_spec(channel_id: ChannelId, decision: Result<bool, Seq<char>>) -> (bool, Option<Seq<char>>) {
    match decision {
        Ok(true) => (true, None),
        Ok(false) => (false, Some("Request rejected by negotiator"@)),
        Err(reason) => (false, Some(reason)),
    }
}

/// A request to open a channel succeeds exactly when the negotiator
/// accepted it with `Ok(true)`; a rejection (`Ok(false)`) or an error is
/// answered with failure and an error message, never with success.
pub proof fn lemma_only_acceptance_succeeds(channel_id: ChannelId, decision: Result<bool, Seq<char>>)
    ensures
        create_response_spec(channel_id, decision).0 <==> decision == Ok::<bool, Seq<char>>(true),
        !create_response_spec(channel_id, decision).0 ==> create_response_spec(
            channel_id,
            decision,
        ).1 is Some,
        create_response_spec(channel_id, decision).0 ==> create_response_spec(
            channel_id,
            decision,
        ).1 is None,
        decision matches Err(m) ==> create_response_spec(channel_id, decision).1 == Some(m),
{
}

/// The answer to a request to open `channel_id`, given the negotiator's
/// decision.
pub fn create_response(channel_id: ChannelId, decision: Result<bool, String>) -> (m: SystemProtocol)
    ensures
        m matches SystemProtocol::ChannelCreateResponse { channel_id: c, success, error }
            && c == channel_id && (success, match error {
                Some(e) => Some(e@),
                None => None,
            }) == create_response_spec(channel_id, decision_view(decision)),
{
    proof {
        reveal_strlit("Request rejected by negotiator");
    }
    match decision {
        Ok(true) => SystemProtocol::ChannelCreateResponse { channel_id, success: true, error: None },
        Ok(false) => SystemProtocol::ChannelCreateResponse {
            channel_id,
            success: false,
            error: Some("Request rejected by negotiator".to_string()),
        },
        Err(reason) => SystemProtocol::ChannelCreateResponse {
            channel_id,
            success: false,
            error: Some(reason),
        },
    }
}

/// The outcome that a response to our request to open a channel reports:
/// success, or the peer's error, or "Unknown error" when it gave none.
pub open spec fn outcome_spec(success: bool, error: Option<String>) -> Result<(), Seq<char>> {
    if success {
        Ok(())
    } else {
        match error {
            Some(m) => Err(m@),
            None => Err("Unknown error"@),
        }
    }
}

/// The reported outcome with its message as text.
pub open spec fn outcome_view(r: Result<(), String>) -> Result<(), Seq<char>> {
    match r {
        Ok(()) => Ok(()),
        Err(e) => Err(e@),
    }
}

/// The outcome that a response to our request to open a channel reports:
/// success, or the peer's error, or "Unknown error" when it gave none.
pub fn response_outcome(success: bool, error: Option<String>) -> (r: Result<(), String>)
    ensures
        outcome_view(r) == outcome_spec(success, error),
{
    proof {
        reveal_strlit("Unknown error");
    }
    if success {
        Ok(())
    } else {
        match error {
            Some(m) => Err(m),
            None => Err("Unknown error".to_string()),
        }
    }
}

/// Decides what to do with a message of the system channel: requests to
/// open a channel go to the negotiator and are answered with its decision;
/// responses complete our pending request; pings are answered with a pong
/// carrying the same timestamp; close notifications close the channel and
/// are acknowledged; pongs and acknowledgements need nothing.
pub fn handle_system_message<N: ChannelNegotiator>(msg: SystemProtocol, negotiator: &N) -> (a: SystemAction)
    ensures
        match msg {
            SystemProtocol::ChannelCreateRequest {
                channel_id,
                protocol_name,
                protocol_version,
                direction,
                metadata,
                ..
            } => a matches SystemAction::Reply(
                SystemProtocol::ChannelCreateResponse { channel_id: c, success, error },
            ) && c == channel_id && (success, match error {
                Some(e) => Some(e@),
                None => None,
            }) == create_response_spec(
                channel_id,
                negotiator.decision(
                    channel_id,
                    protocol_name@,
                    protocol_version,
                    direction,
                    metadata@,
                ),
            ),
            SystemProtocol::ChannelCreateResponse { channel_id, success, error } => a matches SystemAction::CompleteRequest { channel_id: c, result }
                && c == channel_id && outcome_view(result) == outcome_spec(success, error),
            SystemProtocol::Ping { timestamp } => a matches SystemAction::Reply(SystemProtocol::Pong { timestamp: t })
                && t == timestamp,
            SystemProtocol::ChannelCloseNotification { channel_id, .. } => a matches SystemAction::CloseChannel {
                channel_id: c,
                ack: SystemProtocol::ChannelCloseAck { channel_id: d },
            } && c == channel_id && d == channel_id,
            SystemProtocol::Pong { .. } => a is Nothing,
            SystemProtocol::ChannelCloseAck { .. } => a is Nothing,
        },
{
    match msg {
        SystemProtocol::ChannelCreateRequest {
            channel_id,
            protocol_name,
            protocol_version,
            direction,
            buffer_size,
            metadata,
        } => {
            let decision = negotiator.on_channel_create_request(
                channel_id,
                protocol_name.as_str(),
                protocol_version,
                direction,
                &metadata,
            );
            SystemAction::Reply(create_response(channel_id, decision))
        },
        SystemProtocol::ChannelCreateResponse { channel_id, success, error } => {
            SystemAction::CompleteRequest { channel_id, result: response_outcome(success, error) }
        },
        SystemProtocol::Ping { timestamp } => SystemAction::Reply(SystemProtocol::Pong { timestamp }),
        SystemProtocol::ChannelCloseNotification { channel_id, .. } => SystemAction::CloseChannel {
            channel_id,
            ack: SystemProtocol::ChannelCloseAck { channel_id },
        },
        SystemProtocol::Pong { .. } => SystemAction::Nothing,
        SystemProtocol::ChannelCloseAck { .. } => SystemAction::Nothing,
    }
}

/// The failure that a failed connection attempt to `address` counts as for
/// the reconnection strategy: a transport failure as it is, an I/O failure
/// as a failed connection to `address`. Other failures (handshake,
/// serializer, protocol, configuration) are never retried: `None`.
pub fn reconnectable_failure(err: &EndpointError, address: &str) -> (r: Option<TransportError>)
    ensures
        (*err matches EndpointError::Transport(te) ==> r == Some(te)),
        (*err is Io ==> (r matches Some(TransportError::ConnectionFailed { address: a, .. })
            && a@ == address@)),
        !(*err is Transport || *err is Io) ==> r is None,
{
    match err {
        EndpointError::Transport(te) => Some(te.duplicate()),
        EndpointError::Io(e) => Some(
            TransportError::ConnectionFailed { address: address.to_string(), reason: e.to_string() },
        ),
        _ => None,
    }
}

/// The next step of connecting with retries.
#[derive(Debug)]
pub enum ConnectStep {
    /// The attempt connected: stop.
    Connected,
    /// Wait `delay`, then make attempt number `next_attempt`.
    Retry { delay: Duration, next_attempt: u32 },
    /// Stop, with the error of the last attempt.
    GiveUp,
}

/// The attempt number after `attempt`, staying at the largest one.
pub open spec fn next_attempt_number(attempt: u32) -> u32 {
    if attempt < u32::MAX { (attempt + 1) as u32 } else { attempt }
}

/// What follows a failed attempt once the strategy has answered: with
/// `should`, wait `delay` and make the next attempt; otherwise give up.
pub fn retry_step(attempt: u32, should: bool, delay: Duration) -> (r: ConnectStep)
    ensures
        should ==> r == (ConnectStep::Retry { delay, next_attempt: next_attempt_number(attempt) }),
        !should ==> r is GiveUp,
{
    if should {
        let next_attempt = if attempt < u32::MAX {
            attempt + 1
        } else {
            attempt
        };
        ConnectStep::Retry { delay, next_attempt }
    } else {
        ConnectStep::GiveUp
    }
}

/// What follows attempt number `attempt` to connect to `address`, which
/// failed with `failure` or, with `None`, connected. A connection is told
/// to the strategy and ends the attempts. A failure that is neither a
/// transport nor an I/O failure ends them too, without asking the
/// strategy. Any other failure is told to the strategy, which decides
/// whether to try again, and after which delay.
pub fn connect_step<S: ReconnectionStrategy>(
    strategy: &mut S,
    attempt: u32,
    failure: Option<&EndpointError>,
    address: &str,
) -> (r: ConnectStep)
    ensures
        failure is None ==> r is Connected,
        failure is Some ==> !(r is Connected),
        (failure matches Some(e) ==> (!(*e is Transport || *e is Io) ==> (r is GiveUp
            && *final(strategy) == *old(strategy)))),
        (r matches ConnectStep::Retry { next_attempt, .. } ==> next_attempt == next_attempt_number(
            attempt,
        )),
        (failure matches Some(e) ==> ((*e is Transport || *e is Io) ==> exists|
            te: TransportError,
            told: S,
            answer: bool,
        |
            {
                &&& #[trigger] told.may_answer(attempt, te, answer)
                &&& told.knows_failure(te)
                &&& old(strategy).may_answer_after(te, attempt, answer)
                &&& (*e matches EndpointError::Transport(t) ==> te == t)
                &&& (*e is Io ==> (te matches TransportError::ConnectionFailed { address: a, .. }
                    && a@ == address@))
                &&& (answer ==> (r matches ConnectStep::Retry { delay, next_attempt }
                    && next_attempt == next_attempt_number(attempt) && final(strategy).delay_for(
                    attempt,
                    duration_nanos(delay),
                )))
                &&& (!answer ==> r is GiveUp)
            })),
{
    match failure {
        None => {
            strategy.on_connected();
            ConnectStep::Connected
        },
        Some(err) => match reconnectable_failure(err, address) {
            None => ConnectStep::GiveUp,
            Some(te) => {
                strategy.on_disconnected(&te);
                let ghost told: S = *strategy;
                if strategy.should_reconnect(attempt, &te) {
                    let delay = strategy.next_delay(attempt);
                    let r = retry_step(attempt, true, delay);
                    assert(told.may_answer(attempt, te, true));
                    r
                } else {
                    let r = retry_step(attempt, false, Duration::from_secs(0));
                    assert(told.may_answer(attempt, te, false));
                    r
                }
            },
        },
    }
}

} // verus!
