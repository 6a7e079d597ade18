//! Bi-directional remote procedure call framework: the verified core.
//!
//! This crate holds the decision logic of the framework: error
//! classification, channel identifiers, backpressure accounting,
//! reconnection policies, protocol negotiation, endpoint configuration and
//! the metrics and health bookkeeping. Each public function carries a
//! contract that Verus checks.
#![allow(unused_imports)]

pub mod text;
pub mod time;
pub mod channel;
pub mod error;
pub mod endpoint;
pub mod backpressure;
pub mod reconnection;
pub mod observability;

pub use backpressure::{BackpressureMetrics, BackpressureStrategy, BoundedQueue, Unlimited};
pub use channel::{ChannelError, ChannelId, ChannelManager, Protocol};
pub use endpoint::{EndpointConfig, EndpointError, ProtocolDirection};
pub use error::{BdrpcError, TransportError};
pub use observability::{ChannelMetrics, ErrorMetrics, ErrorObserver, TransportMetrics, log_error};
pub use reconnection::{CircuitBreaker, NoReconnect, ReconnectionStrategy};
