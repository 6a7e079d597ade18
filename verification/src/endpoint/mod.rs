//! Endpoints: protocol directions, configuration, handshake and protocol
//! negotiation, errors, the protocol registry and the channel negotiator.

pub mod direction;
pub mod handshake;
pub mod config;
pub mod error;

pub use direction::ProtocolDirection;
pub use handshake::{
    HandshakeMessage, NegotiatedProtocol, ProtocolCapability, negotiate_protocols,
    negotiate_version, negotiate_protocols_strict,
};
pub use config::EndpointConfig;
pub use error::EndpointError;
pub mod negotiator;
pub use negotiator::{ChannelNegotiator, DefaultChannelNegotiator};
pub mod registry;
pub use registry::{Connection, ProtocolRegistry};
pub mod builder;
pub use builder::{EndpointBuilder, TransportConfig, TransportType};
pub mod session;
