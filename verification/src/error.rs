//! The three layers of errors: transport, channel and application, and the
//! handling strategy attached to each.

use vstd::prelude::*;
use std::time::Duration;
use crate::channel::error::{ChannelError, channel_error_recoverable};

verus! {

/// Failures of the connection underneath the channels.
#[derive(Debug, Clone)]
pub enum TransportError {
    /// A connection to `address` could not be established.
    ConnectionFailed { address: String, reason: String },
    /// An established connection was lost.
    ConnectionLost { reason: String },
    /// The transport is closed.
    Closed,
    /// An operation did not complete within `duration`.
    Timeout { duration: Duration },
    /// The transport was configured with values it cannot use.
    InvalidConfiguration { reason: String },
    /// An I/O failure, by its message.
    Io { message: String },
}

/// Whether retrying may succeed: failed or lost connections and timeouts.
pub open spec fn transport_error_recoverable(e: TransportError) -> bool {
    e is ConnectionFailed || e is ConnectionLost || e is Timeout
}

/// Whether the transport has to be closed: lost or closed connections and
/// I/O failures.
pub open spec fn transport_error_closes_transport(e: TransportError) -> bool {
    e is ConnectionLost || e is Closed || e is Io
}

impl TransportError {
    /// A failed connection attempt to `address`.
    pub fn connection_failed(address: &str) -> (r: Self)
        ensures
            r matches TransportError::ConnectionFailed { address: a, reason } && a@ == address@
                && reason@ == Seq::<char>::empty(),
    {
        TransportError::ConnectionFailed { address: address.to_string(), reason: String::new() }
    }

    /// A lost connection, with the reason.
    pub fn connection_lost(reason: &str) -> (r: Self)
        ensures
            r matches TransportError::ConnectionLost { reason: m } && m@ == reason@,
    {
        TransportError::ConnectionLost { reason: reason.to_string() }
    }

    /// A configuration that the transport cannot use, with the reason.
    pub fn invalid_configuration(reason: &str) -> (r: Self)
        ensures
            r matches TransportError::InvalidConfiguration { reason: m } && m@ == reason@,
    {
        TransportError::InvalidConfiguration { reason: reason.to_string() }
    }

    /// A copy of this error.
    pub fn duplicate(&self) -> (c: Self)
        ensures
            c == *self,
    {
        match self {
            TransportError::ConnectionFailed { address, reason } => TransportError::ConnectionFailed {
                address: address.clone(),
                reason: reason.clone(),
            },
            TransportError::ConnectionLost { reason } => TransportError::ConnectionLost {
                reason: reason.clone(),
            },
            TransportError::Closed => TransportError::Closed,
            TransportError::Timeout { duration } => TransportError::Timeout {
                duration: duration.clone(),
            },
            TransportError::InvalidConfiguration { reason } => TransportError::InvalidConfiguration {
                reason: reason.clone(),
            },
            TransportError::Io { message } => TransportError::Io { message: message.clone() },
        }
    }

    /// Whether retrying may succeed.
    pub fn is_recoverable(&self) -> (r: bool)
        ensures
            r == transport_error_recoverable(*self),
    {
        match self {
            TransportError::ConnectionFailed { .. } => true,
            TransportError::ConnectionLost { .. } => true,
            TransportError::Timeout { .. } => true,
            _ => false,
        }
    }

    /// Whether the transport has to be closed.
    pub fn should_close_transport(&self) -> (r: bool)
        ensures
            r == transport_error_closes_transport(*self),
    {
        match self {
            TransportError::ConnectionLost { .. } => true,
            TransportError::Closed => true,
            TransportError::Io { .. } => true,
            _ => false,
        }
    }

    /// The human-readable message of this error.
    pub fn to_string(&self) -> (s: String)
        ensures
            s@ == transport_error_text(*self),
    {
        proof {
            reveal_strlit("connection to '");
            reveal_strlit("' failed: ");
            reveal_strlit("connection lost: ");
            reveal_strlit("transport closed");
            reveal_strlit("transport operation timed out");
            reveal_strlit("invalid transport configuration: ");
            reveal_strlit("I/O error: ");
        }
        match self {
            TransportError::ConnectionFailed { address, reason } => {
                let mut s = "connection to '".to_string();
                s.append(address.as_str());
                s.append("' failed: ");
                s.append(reason.as_str());
                s
            },
            TransportError::ConnectionLost { reason } => {
                let mut s = "connection lost: ".to_string();
                s.append(reason.as_str());
                s
            },
            TransportError::Closed => "transport closed".to_string(),
            TransportError::Timeout { .. } => "transport operation timed out".to_string(),
            TransportError::InvalidConfiguration { reason } => {
                let mut s = "invalid transport configuration: ".to_string();
                s.append(reason.as_str());
                s
            },
            TransportError::Io { message } => {
                let mut s = "I/O error: ".to_string();
                s.append(message.as_str());
                s
            },
        }
    }
}

/// The human-readable message of a transport error.
pub open spec fn transport_error_text(e: TransportError) -> Seq<char> {
    match e {
        TransportError::ConnectionFailed { address, reason } => "connection to '"@ + address@
            + "' failed: "@ + reason@,
        TransportError::ConnectionLost { reason } => "connection lost: "@ + reason@,
        TransportError::Closed => "transport closed"@,
        TransportError::Timeout { .. } => "transport operation timed out"@,
        TransportError::InvalidConfiguration { reason } => "invalid transport configuration: "@
            + reason@,
        TransportError::Io { message } => "I/O error: "@ + message@,
    }
}

/// Any failure of the framework, by the layer it comes from.
#[derive(Debug, Clone)]
pub enum BdrpcError {
    /// The connection failed: close the transport and its channels.
    Transport(TransportError),
    /// A channel failed: close that channel, keep the transport.
    Channel(ChannelError),
    /// A service reported an error, by its message: hand it to the caller.
    Application(String),
}

/// What lies beneath a framework error: the error of its layer.
#[derive(Debug)]
pub enum ErrorSource<'a> {
    /// The transport error beneath.
    Transport(&'a TransportError),
    /// The channel error beneath.
    Channel(&'a ChannelError),
    /// The application's message beneath.
    Application(&'a String),
}

/// Whether retrying may succeed.
pub open spec fn bdrpc_error_recoverable(e: BdrpcError) -> bool {
    match e {
        BdrpcError::Transport(t) => transport_error_recoverable(t),
        BdrpcError::Channel(c) => channel_error_recoverable(c),
        BdrpcError::Application(_) => false,
    }
}

/// Whether the transport has to be closed.
pub open spec fn bdrpc_error_closes_transport(e: BdrpcError) -> bool {
    match e {
        BdrpcError::Transport(t) => transport_error_closes_transport(t),
        _ => false,
    }
}

/// Whether the channel has to be closed.
pub open spec fn bdrpc_error_closes_channel(e: BdrpcError) -> bool {
    match e {
        BdrpcError::Transport(_) => true,
        BdrpcError::Channel(c) => !channel_error_recoverable(c),
        BdrpcError::Application(_) => false,
    }
}

/// A channel error closes its channel exactly when retrying cannot help,
/// and only a full buffer or a timeout can be retried: a missing channel,
/// say, is not recoverable and closes the channel.
pub proof fn lemma_channel_error_classes(c: ChannelError)
    ensures
        bdrpc_error_recoverable(BdrpcError::Channel(c)) <==> (c is Full || c is Timeout),
        bdrpc_error_closes_channel(BdrpcError::Channel(c)) <==> !(c is Full || c is Timeout),
        !bdrpc_error_closes_transport(BdrpcError::Channel(c)),
{
}

impl BdrpcError {
    /// Whether this error comes from the transport layer.
    pub fn is_transport_error(&self) -> (r: bool)
        ensures
            r == (*self is Transport),
    {
        match self {
            BdrpcError::Transport(_) => true,
            _ => false,
        }
    }

    /// Whether this error comes from the channel layer.
    pub fn is_channel_error(&self) -> (r: bool)
        ensures
            r == (*self is Channel),
    {
        match self {
            BdrpcError::Channel(_) => true,
            _ => false,
        }
    }

    /// Whether this error comes from the application.
    pub fn is_application_error(&self) -> (r: bool)
        ensures
            r == (*self is Application),
    {
        match self {
            BdrpcError::Application(_) => true,
            _ => false,
        }
    }

    /// Whether retrying may succeed; application errors never are.
    pub fn is_recoverable(&self) -> (r: bool)
        ensures
            r == bdrpc_error_recoverable(*self),
    {
        match self {
            BdrpcError::Transport(e) => e.is_recoverable(),
            BdrpcError::Channel(e) => e.is_recoverable(),
            BdrpcError::Application(_) => false,
        }
    }

    /// Whether the transport has to be closed: only transport errors may ask
    /// for it.
    pub fn should_close_transport(&self) -> (r: bool)
        ensures
            r == bdrpc_error_closes_transport(*self),
    {
        match self {
            BdrpcError::Transport(e) => e.should_close_transport(),
            _ => false,
        }
    }

    /// Whether the channel has to be closed: always for transport errors,
    /// for channel errors unless they are recoverable, never for
    /// application errors.
    pub fn should_close_channel(&self) -> (r: bool)
        ensures
            r == bdrpc_error_closes_channel(*self),
    {
        match self {
            BdrpcError::Transport(_) => true,
            BdrpcError::Channel(e) => !e.is_recoverable(),
            BdrpcError::Application(_) => false,
        }
    }

    /// The error of the layer beneath; every framework error has one.
    pub fn source(&self) -> (r: Option<ErrorSource<'_>>)
        ensures
            r matches Some(src) && match (*self, src) {
                (BdrpcError::Transport(a), ErrorSource::Transport(b)) => a == *b,
                (BdrpcError::Channel(a), ErrorSource::Channel(b)) => a == *b,
                (BdrpcError::Application(a), ErrorSource::Application(b)) => a == *b,
                _ => false,
            },
    {
        match self {
            BdrpcError::Transport(e) => Some(ErrorSource::Transport(e)),
            BdrpcError::Channel(e) => Some(ErrorSource::Channel(e)),
            BdrpcError::Application(e) => Some(ErrorSource::Application(e)),
        }
    }

    /// The human-readable message: the layer, then the message beneath.
    pub fn to_string(&self) -> (s: String)
        ensures
            s@ == bdrpc_error_text(*self),
    {
        proof {
            reveal_strlit("transport error: ");
            reveal_strlit("channel error: ");
            reveal_strlit("application error: ");
        }
        match self {
            BdrpcError::Transport(e) => {
                let mut s = "transport error: ".to_string();
                s.append(e.to_string().as_str());
                s
            },
            BdrpcError::Channel(e) => {
                let mut s = "channel error: ".to_string();
                s.append(e.to_string().as_str());
                s
            },
            BdrpcError::Application(m) => {
                let mut s = "application error: ".to_string();
                s.append(m.as_str());
                s
            },
        }
    }
}

/// The human-readable message of a framework error.
pub open spec fn bdrpc_error_text(e: BdrpcError) -> Seq<char> {
    match e {
        BdrpcError::Transport(t) => "transport error: "@ + transport_error_text(t),
        BdrpcError::Channel(c) => "channel error: "@
            + crate::channel::error::channel_error_text(c),
        BdrpcError::Application(m) => "application error: "@ + m@,
    }
}

impl From<TransportError> for BdrpcError {
    fn from(error: TransportError) -> (r: Self) {
        BdrpcError::Transport(error)
    }
}

impl vstd::std_specs::convert::FromSpecImpl<TransportError> for BdrpcError {
    open spec fn obeys_from_spec() -> bool {
        true
    }

    open spec fn from_spec(error: TransportError) -> Self {
        BdrpcError::Transport(error)
    }
}

impl From<ChannelError> for BdrpcError {
    fn from(error: ChannelError) -> (r: Self) {
        BdrpcError::Channel(error)
    }
}

impl vstd::std_specs::convert::FromSpecImpl<ChannelError> for BdrpcError {
    open spec fn obeys_from_spec() -> bool {
        true
    }

    open spec fn from_spec(error: ChannelError) -> Self {
        BdrpcError::Channel(error)
    }
}

} // verus!
