//! Errors of endpoints.

use vstd::prelude::*;
use crate::error::{TransportError, transport_error_text};
use crate::channel::error::{ChannelError, channel_error_text};
use crate::endpoint::direction::{ProtocolDirection, dir_description};
use crate::text::{decimal, decimal_string, u32_list_text, u32_list_string};
use crate::channel::id::{ChannelId, channel_id_text};

verus! {

/// `std::io::Error`, carried through as an opaque value.
#[verifier::external_type_specification]
#[verifier::external_body]
pub struct ExIoError(std::io::Error);

/// What can go wrong with an endpoint: its transport or a channel, the
/// protocols it registered or negotiated, the handshake, its
/// configuration, I/O or serialization.
#[derive(Debug)]
pub enum EndpointError {
    /// The transport failed.
    Transport(TransportError),
    /// A channel failed.
    Channel(ChannelError),
    /// The protocol was not registered.
    ProtocolNotRegistered { protocol: String },
    /// The protocol was registered already.
    ProtocolAlreadyRegistered { protocol: String },
    /// The endpoint's direction does not allow the operation.
    DirectionNotSupported { protocol: String, operation: String, our_direction: ProtocolDirection },
    /// The two directions do not fit.
    IncompatibleDirection {
        protocol: String,
        our_direction: ProtocolDirection,
        peer_direction: ProtocolDirection,
    },
    /// The handshake failed.
    HandshakeFailed { reason: String },
    /// No version could be agreed on.
    VersionNegotiationFailed { protocol: String, our_versions: Vec<u32>, peer_versions: Vec<u32> },
    /// The two sides share no version.
    NoCommonVersion { protocol: String, our_versions: Vec<u32>, peer_versions: Vec<u32> },
    /// A feature is not supported.
    FeatureNotSupported { protocol: String, feature: String },
    /// The two sides serialize differently.
    SerializerMismatch { ours: String, theirs: String },
    /// No connection has this identifier.
    ConnectionNotFound { connection_id: String },
    /// No handler serves the protocol.
    HandlerNotRegistered { protocol: String },
    /// The configuration cannot be used.
    InvalidConfiguration { reason: String },
    /// An I/O failure.
    Io(std::io::Error),
    /// A message could not be serialized or deserialized.
    Serialization(String),
    /// A channel for a protocol could not be set up on a connection.
    ChannelCreationFailed { connection_id: String, protocol: String, channel_id: ChannelId, reason: String },
    /// The peer refused to open a channel we asked for.
    ChannelRequestRejected { connection_id: String, protocol: String, channel_id: ChannelId, reason: String },
    /// The peer did not answer a request to open a channel in time.
    ChannelRequestTimeout { connection_id: String, protocol: String, channel_id: ChannelId, timeout_secs: u64 },
}

/// "channel <id> for protocol '<protocol>' on connection '<connection>'".
pub open spec fn channel_on_text(channel_id: ChannelId, protocol: Seq<char>, connection_id: Seq<char>) -> Seq<char> {
    "channel "@ + channel_id_text(channel_id.0) + " for protocol '"@ + protocol
        + "' on connection '"@ + connection_id + "'"@
}

/// Writes `channel_on_text` after `s`.
fn append_channel_on(s: &mut String, channel_id: ChannelId, protocol: &str, connection_id: &str)
    ensures
        final(s)@ == old(s)@ + channel_on_text(channel_id, protocol@, connection_id@),
{
    proof {
        reveal_strlit("channel ");
        reveal_strlit(" for protocol '");
        reveal_strlit("' on connection '");
        reveal_strlit("'");
    }
    s.append("channel ");
    s.append(channel_id.to_string().as_str());
    s.append(" for protocol '");
    s.append(protocol);
    s.append("' on connection '");
    s.append(connection_id);
    s.append("'");
    proof {
        assert(s@ =~= old(s)@ + channel_on_text(channel_id, protocol@, connection_id@));
    }
}

/// The human-readable message of an endpoint error other than an I/O
/// failure.
pub open spec fn endpoint_error_text(e: EndpointError) -> Seq<char> {
    match e {
        EndpointError::Transport(t) => "transport error: "@ + transport_error_text(t),
        EndpointError::Channel(c) => "channel error: "@ + channel_error_text(c),
        EndpointError::ProtocolNotRegistered { protocol } => "protocol '"@ + protocol@
            + "' is not registered"@,
        EndpointError::ProtocolAlreadyRegistered { protocol } => "protocol '"@ + protocol@
            + "' is already registered"@,
        EndpointError::DirectionNotSupported { protocol, operation, our_direction } => "cannot "@
            + operation@ + " protocol '"@ + protocol@ + "': endpoint is "@ + dir_description(
            our_direction,
        ) + " only"@,
        EndpointError::IncompatibleDirection { protocol, our_direction, peer_direction } =>
            "incompatible directions for protocol '"@ + protocol@ + "': we are "@
            + dir_description(our_direction) + ", peer is "@ + dir_description(peer_direction),
        EndpointError::HandshakeFailed { reason } => "handshake failed: "@ + reason@,
        EndpointError::VersionNegotiationFailed { protocol, our_versions, peer_versions } =>
            "version negotiation failed for protocol '"@ + protocol@ + "': we support "@
            + u32_list_text(our_versions@) + ", peer supports "@ + u32_list_text(peer_versions@),
        EndpointError::NoCommonVersion { protocol, our_versions, peer_versions } =>
            "no common version for protocol '"@ + protocol@ + "': we support "@ + u32_list_text(
            our_versions@,
        ) + ", peer supports "@ + u32_list_text(peer_versions@),
        EndpointError::FeatureNotSupported { protocol, feature } => "feature '"@ + feature@
            + "' not supported for protocol '"@ + protocol@ + "'"@,
        EndpointError::SerializerMismatch { ours, theirs } => "serializer mismatch: we use '"@
            + ours@ + "', peer uses '"@ + theirs@ + "'"@,
        EndpointError::ConnectionNotFound { connection_id } => "connection '"@ + connection_id@
            + "' not found"@,
        EndpointError::HandlerNotRegistered { protocol } => "no handler registered for protocol '"@
            + protocol@ + "'"@,
        EndpointError::InvalidConfiguration { reason } => "invalid configuration: "@ + reason@,
        EndpointError::Io(_) => "I/O error: "@,
        EndpointError::Serialization(m) => "serialization error: "@ + m@,
        EndpointError::ChannelCreationFailed { connection_id, protocol, channel_id, reason } =>
            "failed to create "@ + channel_on_text(channel_id, protocol@, connection_id@) + ": "@
            + reason@,
        EndpointError::ChannelRequestRejected { connection_id, protocol, channel_id, reason } =>
            "request for "@ + channel_on_text(channel_id, protocol@, connection_id@)
            + " rejected: "@ + reason@,
        EndpointError::ChannelRequestTimeout { connection_id, protocol, channel_id, timeout_secs } =>
            "request for "@ + channel_on_text(channel_id, protocol@, connection_id@)
            + " timed out after "@ + decimal(timeout_secs as nat) + "s"@,
    }
}

impl EndpointError {
    /// The human-readable message. For an I/O failure, "I/O error: "
    /// followed by the failure's own message.
    pub fn to_string(&self) -> (s: String)
        ensures
            !(*self is Io) ==> s@ == endpoint_error_text(*self),
            *self is Io ==> s@.len() >= 11 && s@.subrange(0, 11) == endpoint_error_text(*self),
    {
        proof {
            reveal_strlit("transport error: ");
            reveal_strlit("channel error: ");
            reveal_strlit("protocol '");
            reveal_strlit("' is not registered");
            reveal_strlit("' is already registered");
            reveal_strlit("cannot ");
            reveal_strlit(" protocol '");
            reveal_strlit("': endpoint is ");
            reveal_strlit(" only");
            reveal_strlit("incompatible directions for protocol '");
            reveal_strlit("': we are ");
            reveal_strlit(", peer is ");
            reveal_strlit("handshake failed: ");
            reveal_strlit("version negotiation failed for protocol '");
            reveal_strlit("': we support ");
            reveal_strlit(", peer supports ");
            reveal_strlit("no common version for protocol '");
            reveal_strlit("feature '");
            reveal_strlit("' not supported for protocol '");
            reveal_strlit("'");
            reveal_strlit("serializer mismatch: we use '");
            reveal_strlit("', peer uses '");
            reveal_strlit("connection '");
            reveal_strlit("' not found");
            reveal_strlit("no handler registered for protocol '");
            reveal_strlit("invalid configuration: ");
            reveal_strlit("I/O error: ");
            reveal_strlit("serialization error: ");
            reveal_strlit("failed to create ");
            reveal_strlit(": ");
            reveal_strlit("request for ");
            reveal_strlit(" rejected: ");
            reveal_strlit(" timed out after ");
            reveal_strlit("s");
        }
        match self {
            EndpointError::Transport(t) => {
                let mut s = "transport error: ".to_string();
                s.append(t.to_string().as_str());
                s
            },
            EndpointError::Channel(c) => {
                let mut s = "channel error: ".to_string();
                s.append(c.to_string().as_str());
                s
            },
            EndpointError::ProtocolNotRegistered { protocol } => {
                let mut s = "protocol '".to_string();
                s.append(protocol.as_str());
                s.append("' is not registered");
                s
            },
            EndpointError::ProtocolAlreadyRegistered { protocol } => {
                let mut s = "protocol '".to_string();
                s.append(protocol.as_str());
                s.append("' is already registered");
                s
            },
            EndpointError::DirectionNotSupported { protocol, operation, our_direction } => {
                let mut s = "cannot ".to_string();
                s.append(operation.as_str());
                s.append(" protocol '");
                s.append(protocol.as_str());
                s.append("': endpoint is ");
                s.append(our_direction.description());
                s.append(" only");
                s
            },
            EndpointError::IncompatibleDirection { protocol, our_direction, peer_direction } => {
                let mut s = "incompatible directions for protocol '".to_string();
                s.append(protocol.as_str());
                s.append("': we are ");
                s.append(our_direction.description());
                s.append(", peer is ");
                s.append(peer_direction.description());
                s
            },
            EndpointError::HandshakeFailed { reason } => {
                let mut s = "handshake failed: ".to_string();
                s.append(reason.as_str());
                s
            },
            EndpointError::VersionNegotiationFailed { protocol, our_versions, peer_versions } => {
                let mut s = "version negotiation failed for protocol '".to_string();
                s.append(protocol.as_str());
                s.append("': we support ");
                s.append(u32_list_string(our_versions).as_str());
                s.append(", peer supports ");
                s.append(u32_list_string(peer_versions).as_str());
                s
            },
            EndpointError::NoCommonVersion { protocol, our_versions, peer_versions } => {
                let mut s = "no common version for protocol '".to_string();
                s.append(protocol.as_str());
                s.append("': we support ");
                s.append(u32_list_string(our_versions).as_str());
                s.append(", peer supports ");
                s.append(u32_list_string(peer_versions).as_str());
                s
            },
            EndpointError::FeatureNotSupported { protocol, feature } => {
                let mut s = "feature '".to_string();
                s.append(feature.as_str());
                s.append("' not supported for protocol '");
                s.append(protocol.as_str());
                s.append("'");
                s
            },
            EndpointError::SerializerMismatch { ours, theirs } => {
                let mut s = "serializer mismatch: we use '".to_string();
                s.append(ours.as_str());
                s.append("', peer uses '");
                s.append(theirs.as_str());
                s.append("'");
                s
            },
            EndpointError::ConnectionNotFound { connection_id } => {
                let mut s = "connection '".to_string();
                s.append(connection_id.as_str());
                s.append("' not found");
                s
            },
            EndpointError::HandlerNotRegistered { protocol } => {
                let mut s = "no handler registered for protocol '".to_string();
                s.append(protocol.as_str());
                s.append("'");
                s
            },
            EndpointError::InvalidConfiguration { reason } => {
                let mut s = "invalid configuration: ".to_string();
                s.append(reason.as_str());
                s
            },
            EndpointError::Io(e) => {
                let mut s = "I/O error: ".to_string();
                let m = e.to_string();
                s.append(m.as_str());
                s
            },
            EndpointError::Serialization(m) => {
                let mut s = "serialization error: ".to_string();
                s.append(m.as_str());
                s
            },
            EndpointError::ChannelCreationFailed { connection_id, protocol, channel_id, reason } => {
                let mut s = "failed to create ".to_string();
                append_channel_on(&mut s, *channel_id, protocol.as_str(), connection_id.as_str());
                s.append(": ");
                s.append(reason.as_str());
                s
            },
            EndpointError::ChannelRequestRejected { connection_id, protocol, channel_id, reason } => {
                let mut s = "request for ".to_string();
                append_channel_on(&mut s, *channel_id, protocol.as_str(), connection_id.as_str());
                s.append(" rejected: ");
                s.append(reason.as_str());
                s
            },
            EndpointError::ChannelRequestTimeout {
                connection_id,
                protocol,
                channel_id,
                timeout_secs,
            } => {
                let mut s = "request for ".to_string();
                append_channel_on(&mut s, *channel_id, protocol.as_str(), connection_id.as_str());
                s.append(" timed out after ");
                s.append(decimal_string(*timeout_secs).as_str());
                s.append("s");
                s
            },
        }
    }
}

/// What lies beneath an endpoint error, where something does.
#[derive(Debug)]
pub enum EndpointErrorSource<'a> {
    /// The transport error beneath.
    Transport(&'a TransportError),
    /// The channel error beneath.
    Channel(&'a ChannelError),
    /// The I/O error beneath.
    Io(&'a std::io::Error),
}

impl EndpointError {
    /// The error beneath: the transport, channel or I/O error this one
    /// wraps; the other errors have none.
    pub fn source(&self) -> (r: Option<EndpointErrorSource<'_>>)
        ensures
            match (*self, r) {
                (EndpointError::Transport(a), Some(EndpointErrorSource::Transport(b))) => a == *b,
                (EndpointError::Channel(a), Some(EndpointErrorSource::Channel(b))) => a == *b,
                (EndpointError::Io(a), Some(EndpointErrorSource::Io(b))) => a == *b,
                (EndpointError::Transport(_), _) => false,
                (EndpointError::Channel(_), _) => false,
                (EndpointError::Io(_), _) => false,
                (_, None) => true,
                (_, Some(_)) => false,
            },
    {
        match self {
            EndpointError::Transport(e) => Some(EndpointErrorSource::Transport(e)),
            EndpointError::Channel(e) => Some(EndpointErrorSource::Channel(e)),
            EndpointError::Io(e) => Some(EndpointErrorSource::Io(e)),
            _ => None,
        }
    }
}

impl From<TransportError> for EndpointError {
    fn from(err: TransportError) -> (r: Self) {
        EndpointError::Transport(err)
    }
}

impl vstd::std_specs::convert::FromSpecImpl<TransportError> for EndpointError {
    open spec fn obeys_from_spec() -> bool {
        true
    }

    open spec fn from_spec(err: TransportError) -> Self {
        EndpointError::Transport(err)
    }
}

impl From<ChannelError> for EndpointError {
    fn from(err: ChannelError) -> (r: Self) {
        EndpointError::Channel(err)
    }
}

impl vstd::std_specs::convert::FromSpecImpl<ChannelError> for EndpointError {
    open spec fn obeys_from_spec() -> bool {
        true
    }

    open spec fn from_spec(err: ChannelError) -> Self {
        EndpointError::Channel(err)
    }
}

impl From<std::io::Error> for EndpointError {
    fn from(err: std::io::Error) -> (r: Self) {
        EndpointError::Io(err)
    }
}

impl vstd::std_specs::convert::FromSpecImpl<std::io::Error> for EndpointError {
    open spec fn obeys_from_spec() -> bool {
        true
    }

    open spec fn from_spec(err: std::io::Error) -> Self {
        EndpointError::Io(err)
    }
}

} // verus!
