//! Channels: identifiers, errors, correlation identifiers, the system
//! protocol and the checks a channel makes before it sends.

pub mod id;
pub mod error;
pub mod correlation;
pub mod pending;
pub mod manager;
pub mod protocol;
pub mod system;

pub use id::ChannelId;
pub use error::ChannelError;
pub use correlation::CorrelationIdGenerator;
pub use pending::PendingRequests;
pub use manager::{ChannelEntry, ChannelManager};
pub use protocol::Protocol;
pub use system::{SystemProtocol, system_channel_id, SYSTEM_CHANNEL_NUMBER};
