//! Errors of the channel layer.

use vstd::prelude::*;
use crate::channel::id::{ChannelId, channel_id_text};
use crate::text::{decimal, decimal_string};

verus! {

/// Failures of a channel: closed or missing channels, ordering violations,
/// full buffers, duplicate identifiers, unsupported features, timeouts and
/// internal faults.
#[derive(Debug, Clone, PartialEq, Eq)]
pub enum ChannelError {
    /// The channel is closed.
    Closed { channel_id: ChannelId },
    /// No channel has this identifier.
    NotFound { channel_id: ChannelId },
    /// A message arrived with an unexpected sequence number.
    OutOfOrder { channel_id: ChannelId, expected: u64, received: u64 },
    /// The channel's buffer is full.
    Full { channel_id: ChannelId, buffer_size: usize },
    /// A channel with this identifier already exists.
    AlreadyExists { channel_id: ChannelId },
    /// An internal fault.
    Internal { message: String },
    /// A message needs a feature that the channel did not negotiate.
    FeatureNotSupported { channel_id: ChannelId, feature: String, method: String },
    /// An operation did not complete in time.
    Timeout { channel_id: ChannelId, operation: String },
}

/// Whether retrying may succeed: only a full buffer or a timeout.
pub open spec fn channel_error_recoverable(e: ChannelError) -> bool {
    e is Full || e is Timeout
}

/// The channel that an error concerns, if any.
pub open spec fn channel_error_id(e: ChannelError) -> Option<ChannelId> {
    match e {
        ChannelError::Closed { channel_id } => Some(channel_id),
        ChannelError::NotFound { channel_id } => Some(channel_id),
        ChannelError::OutOfOrder { channel_id, .. } => Some(channel_id),
        ChannelError::Full { channel_id, .. } => Some(channel_id),
        ChannelError::AlreadyExists { channel_id } => Some(channel_id),
        ChannelError::FeatureNotSupported { channel_id, .. } => Some(channel_id),
        ChannelError::Timeout { channel_id, .. } => Some(channel_id),
        ChannelError::Internal { .. } => None,
    }
}

/// The human-readable message of a channel error.
pub open spec fn channel_error_text(e: ChannelError) -> Seq<char> {
    match e {
        ChannelError::Closed { channel_id } => "Channel "@ + channel_id_text(channel_id.0)
            + " is closed"@,
        ChannelError::NotFound { channel_id } => "Channel "@ + channel_id_text(channel_id.0)
            + " not found"@,
        ChannelError::OutOfOrder { channel_id, expected, received } =>
            "Message out of order on channel "@ + channel_id_text(channel_id.0)
            + ": expected sequence "@ + decimal(expected as nat) + ", got "@
            + decimal(received as nat),
        ChannelError::Full { channel_id, buffer_size } => "Channel "@ + channel_id_text(
            channel_id.0,
        ) + " is full (buffer size: "@ + decimal(buffer_size as nat) + ")"@,
        ChannelError::AlreadyExists { channel_id } => "Channel "@ + channel_id_text(
            channel_id.0,
        ) + " already exists"@,
        ChannelError::FeatureNotSupported { channel_id, feature, method } => "Feature '"@
            + feature@ + "' required by method '"@ + method@ + "' is not supported on channel "@
            + channel_id_text(channel_id.0),
        ChannelError::Timeout { channel_id, operation } => "Operation '"@ + operation@
            + "' timed out on channel "@ + channel_id_text(channel_id.0),
        ChannelError::Internal { message } => "Internal channel error: "@ + message@,
    }
}

/// Only a full buffer or a timed-out operation is worth retrying: a
/// closed, missing, duplicate or out-of-order channel, a missing feature
/// and an internal fault are not.
pub proof fn lemma_recoverable_only_full_or_timeout(e: ChannelError)
    ensures
        channel_error_recoverable(e) ==> (e is Full || e is Timeout),
        (e is Full || e is Timeout) ==> channel_error_recoverable(e),
        (e is NotFound || e is Closed || e is OutOfOrder || e is AlreadyExists
            || e is FeatureNotSupported || e is Internal) ==> !channel_error_recoverable(e),
{
}

impl ChannelError {
    /// Whether retrying the operation may succeed.
    pub fn is_recoverable(&self) -> (r: bool)
        ensures
            r == channel_error_recoverable(*self),
    {
        match self {
            ChannelError::Full { .. } | ChannelError::Timeout { .. } => true,
            _ => false,
        }
    }

    /// Whether the channel is closed.
    pub fn is_closed(&self) -> (r: bool)
        ensures
            r == (*self is Closed),
    {
        match self {
            ChannelError::Closed { .. } => true,
            _ => false,
        }
    }

    /// Whether an operation timed out.
    pub fn is_timeout(&self) -> (r: bool)
        ensures
            r == (*self is Timeout),
    {
        match self {
            ChannelError::Timeout { .. } => true,
            _ => false,
        }
    }

    /// The channel that this error concerns; internal faults concern none.
    pub fn channel_id(&self) -> (r: Option<ChannelId>)
        ensures
            r == channel_error_id(*self),
    {
        match self {
            ChannelError::Closed { channel_id } => Some(*channel_id),
            ChannelError::NotFound { channel_id } => Some(*channel_id),
            ChannelError::OutOfOrder { channel_id, .. } => Some(*channel_id),
            ChannelError::Full { channel_id, .. } => Some(*channel_id),
            ChannelError::AlreadyExists { channel_id } => Some(*channel_id),
            ChannelError::FeatureNotSupported { channel_id, .. } => Some(*channel_id),
            ChannelError::Timeout { channel_id, .. } => Some(*channel_id),
            ChannelError::Internal { .. } => None,
        }
    }

    /// The human-readable message of this error.
    pub fn to_string(&self) -> (s: String)
        ensures
            s@ == channel_error_text(*self),
    {
        proof {
            reveal_strlit("Channel ");
            reveal_strlit(" is closed");
            reveal_strlit(" not found");
            reveal_strlit("Message out of order on channel ");
            reveal_strlit(": expected sequence ");
            reveal_strlit(", got ");
            reveal_strlit(" is full (buffer size: ");
            reveal_strlit(")");
            reveal_strlit(" already exists");
            reveal_strlit("Feature '");
            reveal_strlit("' required by method '");
            reveal_strlit("' is not supported on channel ");
            reveal_strlit("Operation '");
            reveal_strlit("' timed out on channel ");
            reveal_strlit("Internal channel error: ");
        }
        match self {
            ChannelError::Closed { channel_id } => {
                let mut s = "Channel ".to_string();
                s.append(channel_id.to_string().as_str());
                s.append(" is closed");
                s
            },
            ChannelError::NotFound { channel_id } => {
                let mut s = "Channel ".to_string();
                s.append(channel_id.to_string().as_str());
                s.append(" not found");
                s
            },
            ChannelError::OutOfOrder { channel_id, expected, received } => {
                let mut s = "Message out of order on channel ".to_string();
                s.append(channel_id.to_string().as_str());
                s.append(": expected sequence ");
                s.append(decimal_string(*expected).as_str());
                s.append(", got ");
                s.append(decimal_string(*received).as_str());
                s
            },
            ChannelError::Full { channel_id, buffer_size } => {
                let mut s = "Channel ".to_string();
                s.append(channel_id.to_string().as_str());
                s.append(" is full (buffer size: ");
                s.append(decimal_string(*buffer_size as u64).as_str());
                s.append(")");
                s
            },
            ChannelError::AlreadyExists { channel_id } => {
                let mut s = "Channel ".to_string();
                s.append(channel_id.to_string().as_str());
                s.append(" already exists");
                s
            },
            ChannelError::FeatureNotSupported { channel_id, feature, method } => {
                let mut s = "Feature '".to_string();
                s.append(feature.as_str());
                s.append("' required by method '");
                s.append(method.as_str());
                s.append("' is not supported on channel ");
                s.append(channel_id.to_string().as_str());
                s
            },
            ChannelError::Timeout { channel_id, operation } => {
                let mut s = "Operation '".to_string();
                s.append(operation.as_str());
                s.append("' timed out on channel ");
                s.append(channel_id.to_string().as_str());
                s
            },
            ChannelError::Internal { message } => {
                let mut s = "Internal channel error: ".to_string();
                s.append(message.as_str());
                s
            },
        }
    }
}

} // verus!
