//! Reconnection policies: whether to try again after a connection failed,
//! how long to wait, and what happened so far.

pub mod traits;
pub mod no_reconnect;


pub use traits::{ReconnectionMetrics, ReconnectionStrategy};
pub use no_reconnect::NoReconnect;

pub mod circuit_breaker;
pub use circuit_breaker::{CircuitBreaker, CircuitBreakerBuilder, CircuitState};
