//! Flow control: strategies that decide whether a message may be sent now
//! and count what went through.

pub mod traits;
pub mod unlimited;
pub mod bounded_queue;

pub use traits::{BackpressureMetrics, BackpressureStrategy};
pub use unlimited::Unlimited;
pub use bounded_queue::BoundedQueue;
