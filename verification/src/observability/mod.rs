//! Observability: correlation identifiers, error counters, error observers, log records of errors,
//! health checks and transport and channel metrics.

pub mod correlation;
pub mod errors;
pub mod health;
pub mod metrics;

pub use correlation::CorrelationId;
pub use errors::{ErrorMetrics, ErrorObserver, ErrorLogRecord, LogLevel, log_error};
pub use health::{HealthCheck, HealthReport, HealthStatus};
pub use metrics::{ChannelMetrics, TransportMetrics};
