use bdrpc::observability::{
    log_error, ChannelMetrics, CorrelationId, ErrorMetrics, ErrorObserver, HealthCheck,
    HealthStatus, LogLevel, TransportMetrics,
};
use bdrpc::{BdrpcError, ChannelError, ChannelId, TransportError};
use std::io;
use std::sync::atomic::{AtomicU64, Ordering};
use std::sync::Arc;
use std::time::{Duration, Instant};

/// Spins until `d` has passed.
fn wait_for(d: Duration) {
    let start = Instant::now();
    while start.elapsed() < d {
        std::hint::spin_loop();
    }
}

type Callback = Box<dyn Fn(&BdrpcError)>;

fn application_error() -> BdrpcError {
    BdrpcError::Application(io::Error::other("test").to_string())
}

#[test]
fn observability_test_metrics_new() {
    let metrics = ErrorMetrics::new();
    assert_eq!(metrics.total_errors(), 0);
    assert_eq!(metrics.transport_errors(), 0);
    assert_eq!(metrics.channel_errors(), 0);
    assert_eq!(metrics.application_errors(), 0);
}

#[test]
fn test_metrics_record_transport_error() {
    let mut metrics = ErrorMetrics::new();
    let error = BdrpcError::Transport(TransportError::Closed);
    metrics.record_error(&error);

    assert_eq!(metrics.transport_errors(), 1);
    assert_eq!(metrics.total_errors(), 1);
    assert_eq!(metrics.transport_closures(), 1);
}

#[test]
fn test_metrics_record_channel_error() {
    let mut metrics = ErrorMetrics::new();
    let error = BdrpcError::Channel(ChannelError::Closed { channel_id: ChannelId::from(1) });
    metrics.record_error(&error);

    assert_eq!(metrics.channel_errors(), 1);
    assert_eq!(metrics.total_errors(), 1);
    assert_eq!(metrics.channel_closures(), 1);
}

#[test]
fn test_metrics_record_application_error() {
    let mut metrics = ErrorMetrics::new();
    let error = application_error();
    metrics.record_error(&error);

    assert_eq!(metrics.application_errors(), 1);
    assert_eq!(metrics.total_errors(), 1);
}

#[test]
fn test_metrics_recoverable_errors() {
    let mut metrics = ErrorMetrics::new();

    let error =
        BdrpcError::Channel(ChannelError::Full { channel_id: ChannelId::from(1), buffer_size: 100 });
    metrics.record_error(&error);
    assert_eq!(metrics.recoverable_errors(), 1);

    let error = BdrpcError::Transport(TransportError::Closed);
    metrics.record_error(&error);
    assert_eq!(metrics.recoverable_errors(), 1);
}

#[test]
fn observability_test_metrics_reset() {
    let mut metrics = ErrorMetrics::new();
    let error = BdrpcError::Transport(TransportError::Closed);
    metrics.record_error(&error);
    assert_eq!(metrics.total_errors(), 1);

    metrics.reset();
    assert_eq!(metrics.total_errors(), 0);
    assert_eq!(metrics.transport_errors(), 0);
}

#[test]
fn error_metrics_default_is_zero() {
    let metrics = ErrorMetrics::default();
    assert_eq!(metrics.total_errors(), 0);
    assert_eq!(metrics.recoverable_errors(), 0);
}

#[test]
fn test_observer_new() {
    let observer: ErrorObserver<Callback> = ErrorObserver::new();
    assert_eq!(observer.debug_text(), "ErrorObserver { callback_count: 0 }");
}

#[test]
fn test_observer_on_error() {
    let mut observer: ErrorObserver<Callback> = ErrorObserver::new();
    let counter = Arc::new(AtomicU64::new(0));
    let counter_clone = counter.clone();

    observer.on_error(Box::new(move |_error: &BdrpcError| {
        counter_clone.fetch_add(1, Ordering::Relaxed);
    }));

    let error = BdrpcError::Transport(TransportError::Closed);
    observer.notify(&error);

    assert_eq!(counter.load(Ordering::Relaxed), 1);
}

#[test]
fn test_observer_multiple_callbacks() {
    let mut observer: ErrorObserver<Callback> = ErrorObserver::new();
    let counter1 = Arc::new(AtomicU64::new(0));
    let counter2 = Arc::new(AtomicU64::new(0));

    let c1 = counter1.clone();
    observer.on_error(Box::new(move |_: &BdrpcError| {
        c1.fetch_add(1, Ordering::Relaxed);
    }));

    let c2 = counter2.clone();
    observer.on_error(Box::new(move |_: &BdrpcError| {
        c2.fetch_add(1, Ordering::Relaxed);
    }));

    let error = BdrpcError::Transport(TransportError::Closed);
    observer.notify(&error);

    assert_eq!(counter1.load(Ordering::Relaxed), 1);
    assert_eq!(counter2.load(Ordering::Relaxed), 1);
    assert_eq!(observer.callback_count(), 2);
    assert_eq!(observer.debug_text(), "ErrorObserver { callback_count: 2 }");
}

#[test]
fn test_observer_clear() {
    let mut observer: ErrorObserver<Callback> = ErrorObserver::new();
    let counter = Arc::new(AtomicU64::new(0));
    let counter_clone = counter.clone();

    observer.on_error(Box::new(move |_: &BdrpcError| {
        counter_clone.fetch_add(1, Ordering::Relaxed);
    }));

    observer.clear();

    let error = BdrpcError::Transport(TransportError::Closed);
    observer.notify(&error);

    assert_eq!(counter.load(Ordering::Relaxed), 0);
}

#[test]
fn test_log_transport_error() {
    let error = BdrpcError::Transport(TransportError::Closed);
    let record = log_error(&error);
    assert_eq!(record.level, LogLevel::Error);
    assert_eq!(record.message, "Transport error occurred");
    assert_eq!(record.error, "transport closed");
    assert_eq!(record.recoverable, Some(false));
    assert_eq!(record.should_close_transport, Some(true));
}

#[test]
fn test_log_channel_error() {
    let error = BdrpcError::Channel(ChannelError::Closed { channel_id: ChannelId::from(1) });
    let record = log_error(&error);
    assert_eq!(record.level, LogLevel::Error);
    assert_eq!(record.message, "Channel error occurred (closed)");
    assert_eq!(record.channel_id, Some(ChannelId::from(1)));
    assert_eq!(record.should_close_channel, Some(true));

    let error =
        BdrpcError::Channel(ChannelError::Full { channel_id: ChannelId::from(2), buffer_size: 10 });
    let record = log_error(&error);
    assert_eq!(record.level, LogLevel::Warn);
    assert_eq!(record.message, "Channel error occurred");
    assert_eq!(record.recoverable, Some(true));
}

#[test]
fn test_log_application_error() {
    let error = application_error();
    let record = log_error(&error);
    assert_eq!(record.level, LogLevel::Info);
    assert_eq!(record.message, "Application error occurred");
    assert_eq!(record.error, "test");
}

#[test]
fn test_log_error_noop() {
    let error = BdrpcError::Transport(TransportError::Closed);
    let _ = log_error(&error);
}

#[test]
fn test_health_status_methods() {
    assert!(HealthStatus::Healthy.is_healthy());
    assert!(!HealthStatus::Healthy.is_degraded());
    assert!(!HealthStatus::Healthy.is_unhealthy());
    assert!(HealthStatus::Healthy.is_operational());

    assert!(!HealthStatus::Degraded.is_healthy());
    assert!(HealthStatus::Degraded.is_degraded());
    assert!(!HealthStatus::Degraded.is_unhealthy());
    assert!(HealthStatus::Degraded.is_operational());

    assert!(!HealthStatus::Unhealthy.is_healthy());
    assert!(!HealthStatus::Unhealthy.is_degraded());
    assert!(HealthStatus::Unhealthy.is_unhealthy());
    assert!(!HealthStatus::Unhealthy.is_operational());
}

#[test]
fn test_health_status_display() {
    assert_eq!(HealthStatus::Healthy.to_string(), "healthy");
    assert_eq!(HealthStatus::Degraded.to_string(), "degraded");
    assert_eq!(HealthStatus::Unhealthy.to_string(), "unhealthy");
}

#[test]
fn test_health_check_new() {
    let mut health = HealthCheck::new();
    assert_eq!(health.status(), HealthStatus::Healthy);
    assert_eq!(health.message(), None);
    assert!(health.is_alive());
    assert!(health.is_ready());
}

#[test]
fn test_health_check_set_healthy() {
    let mut health = HealthCheck::new();
    health.set_unhealthy("Error");
    health.set_healthy();
    assert_eq!(health.status(), HealthStatus::Healthy);
    assert_eq!(health.message(), None);
}

#[test]
fn test_health_check_set_degraded() {
    let mut health = HealthCheck::new();
    health.set_degraded("High latency");
    assert_eq!(health.status(), HealthStatus::Degraded);
    assert_eq!(health.message(), Some("High latency".to_string()));
    assert!(health.is_alive());
    assert!(health.is_ready());
}

#[test]
fn test_health_check_set_unhealthy() {
    let mut health = HealthCheck::new();
    health.set_unhealthy("Connection lost");
    assert_eq!(health.status(), HealthStatus::Unhealthy);
    assert_eq!(health.message(), Some("Connection lost".to_string()));
    assert!(!health.is_alive());
    assert!(!health.is_ready());
}

#[test]
fn test_health_check_report() {
    let mut health = HealthCheck::new();
    health.set_degraded("Test message");

    let report = health.report();
    assert_eq!(report.status, HealthStatus::Degraded);
    assert_eq!(report.message, Some("Test message".to_string()));
    assert!(report.is_operational());
    assert!(!report.is_healthy());
}

#[test]
fn test_health_check_time_tracking() {
    let health = HealthCheck::new();
    wait_for(Duration::from_millis(10));

    let duration = health.time_since_change();
    assert!(duration >= Duration::from_millis(10));
    assert!(duration < Duration::from_secs(1));
}

#[test]
fn test_liveness_probe() {
    let mut health = HealthCheck::new();
    assert!(health.is_alive());

    health.set_degraded("Issues");
    assert!(health.is_alive());

    health.set_unhealthy("Failed");
    assert!(!health.is_alive());
}

#[test]
fn test_readiness_probe() {
    let mut health = HealthCheck::new();
    assert!(health.is_ready());

    health.set_degraded("Slow");
    assert!(health.is_ready());

    health.set_unhealthy("Down");
    assert!(!health.is_ready());
}

#[test]
fn status_change_time_moves_only_on_change() {
    let mut health = HealthCheck::new();
    wait_for(Duration::from_millis(20));
    health.set_healthy();
    assert!(health.time_since_change() >= Duration::from_millis(20));
    health.set_degraded("slow");
    assert!(health.time_since_change() < Duration::from_millis(20));
}

#[test]
fn test_transport_metrics_new() {
    let metrics = TransportMetrics::new();
    assert_eq!(metrics.active_connections(), 0);
    assert_eq!(metrics.total_bytes_sent(), 0);
    assert_eq!(metrics.total_bytes_received(), 0);
}

#[test]
fn test_transport_metrics_connections() {
    let mut metrics = TransportMetrics::new();
    metrics.record_connection_opened();
    metrics.record_connection_opened();
    assert_eq!(metrics.active_connections(), 2);
    assert_eq!(metrics.total_connections_opened(), 2);

    metrics.record_connection_closed();
    assert_eq!(metrics.active_connections(), 1);
    assert_eq!(metrics.total_connections_closed(), 1);
}

#[test]
fn test_transport_metrics_bytes() {
    let mut metrics = TransportMetrics::new();
    metrics.record_bytes_sent(1024);
    metrics.record_bytes_sent(512);
    assert_eq!(metrics.total_bytes_sent(), 1536);

    metrics.record_bytes_received(256);
    assert_eq!(metrics.total_bytes_received(), 256);
}

#[test]
fn test_transport_metrics_errors() {
    let mut metrics = TransportMetrics::new();
    metrics.record_connection_error();
    metrics.record_read_error();
    metrics.record_write_error();

    assert_eq!(metrics.total_connection_errors(), 1);
    assert_eq!(metrics.total_read_errors(), 1);
    assert_eq!(metrics.total_write_errors(), 1);
}

#[test]
fn test_transport_metrics_reset() {
    let mut metrics = TransportMetrics::new();
    metrics.record_connection_opened();
    metrics.record_bytes_sent(1024);

    metrics.reset();
    assert_eq!(metrics.active_connections(), 0);
    assert_eq!(metrics.total_bytes_sent(), 0);
}

#[test]
fn test_channel_metrics_new() {
    let metrics = ChannelMetrics::new();
    assert_eq!(metrics.active_channels(), 0);
    assert_eq!(metrics.total_messages_sent(), 0);
    assert_eq!(metrics.total_messages_received(), 0);
}

#[test]
fn test_channel_metrics_channels() {
    let mut metrics = ChannelMetrics::new();
    metrics.record_channel_created();
    metrics.record_channel_created();
    assert_eq!(metrics.active_channels(), 2);
    assert_eq!(metrics.total_channels_created(), 2);

    metrics.record_channel_closed();
    assert_eq!(metrics.active_channels(), 1);
    assert_eq!(metrics.total_channels_closed(), 1);
}

#[test]
fn test_channel_metrics_messages() {
    let mut metrics = ChannelMetrics::new();
    metrics.record_message_sent();
    metrics.record_message_sent();
    assert_eq!(metrics.total_messages_sent(), 2);

    metrics.record_message_received();
    assert_eq!(metrics.total_messages_received(), 1);
}

#[test]
fn test_channel_metrics_errors() {
    let mut metrics = ChannelMetrics::new();
    metrics.record_send_error();
    metrics.record_receive_error();

    assert_eq!(metrics.total_send_errors(), 1);
    assert_eq!(metrics.total_receive_errors(), 1);
}

#[test]
fn test_channel_metrics_latency() {
    let mut metrics = ChannelMetrics::new();
    metrics.record_latency(Duration::from_millis(10));
    metrics.record_latency(Duration::from_millis(20));

    assert_eq!(metrics.average_latency_us(), 15_000);
    assert_eq!(metrics.average_latency(), Duration::from_millis(15));
}

#[test]
fn test_channel_metrics_latency_zero() {
    let metrics = ChannelMetrics::new();
    assert_eq!(metrics.average_latency_us(), 0);
    assert_eq!(metrics.average_latency(), Duration::ZERO);
}

#[test]
fn test_channel_metrics_reset() {
    let mut metrics = ChannelMetrics::new();
    metrics.record_channel_created();
    metrics.record_message_sent();
    metrics.record_latency(Duration::from_millis(10));

    metrics.reset();
    assert_eq!(metrics.active_channels(), 0);
    assert_eq!(metrics.total_messages_sent(), 0);
    assert_eq!(metrics.average_latency_us(), 0);
}

#[test]
fn metrics_defaults_are_zero() {
    assert_eq!(TransportMetrics::default().active_connections(), 0);
    assert_eq!(ChannelMetrics::default().active_channels(), 0);
}

#[test]
fn active_connections_never_go_below_zero() {
    let mut metrics = TransportMetrics::new();
    metrics.record_connection_closed();
    assert_eq!(metrics.active_connections(), 0);
    metrics.record_connection_opened();
    assert_eq!(metrics.active_connections(), 0);
    metrics.record_connection_opened();
    assert_eq!(metrics.active_connections(), 1);
}

#[test]
fn test_correlation_id_new() {
    let id1 = CorrelationId::new();
    let id2 = CorrelationId::new();
    assert_ne!(id1, id2);
}

#[test]
fn test_correlation_id_from_uuid() {
    let uuid = uuid::Uuid::new_v4();
    let id = CorrelationId::from_uuid(uuid.as_u128());
    assert_eq!(id.as_uuid(), uuid.as_u128());
}

#[test]
fn test_correlation_id_from_string() {
    let uuid_str = "550e8400-e29b-41d4-a716-446655440000";
    let id = CorrelationId::from_string(uuid_str).unwrap();
    assert_eq!(id.to_string(), uuid_str);
}

#[test]
fn test_correlation_id_from_string_invalid() {
    assert!(CorrelationId::from_string("invalid").is_err());
}

#[test]
fn test_correlation_id_display() {
    let id = CorrelationId::new();
    let s = id.to_string();
    assert_eq!(s.len(), 36);
}

#[test]
fn test_correlation_id_from_str() {
    let uuid_str = "550e8400-e29b-41d4-a716-446655440000";
    let id: CorrelationId = uuid_str.parse().unwrap();
    assert_eq!(id.to_string(), uuid_str);
}

#[test]
fn test_correlation_id_as_bytes() {
    let id = CorrelationId::new();
    let bytes = id.as_bytes();
    assert_eq!(bytes.len(), 16);
}

#[test]
fn test_correlation_id_default() {
    let id1 = CorrelationId::default();
    let id2 = CorrelationId::default();
    assert_ne!(id1, id2);
}

#[test]
fn test_correlation_id_clone() {
    let id1 = CorrelationId::new();
    let id2 = id1;
    assert_eq!(id1, id2);
}

#[test]
fn test_correlation_id_hash() {
    let mut set = std::collections::HashSet::new();
    let id = CorrelationId::new();
    set.insert(id);
    assert!(set.contains(&id));
}

#[test]
fn correlation_id_text_and_bytes() {
    let id = CorrelationId::from_uuid(0x550e8400_e29b_41d4_a716_446655440000);
    assert_eq!(id.to_string(), "550e8400-e29b-41d4-a716-446655440000");
    assert_eq!(
        id.as_bytes(),
        [0x55, 0x0e, 0x84, 0x00, 0xe2, 0x9b, 0x41, 0xd4, 0xa7, 0x16, 0x44, 0x66, 0x55, 0x44, 0x00, 0x00]
    );
    let back = CorrelationId::from_string(&id.to_string()).unwrap();
    assert_eq!(back, id);
    let upper = CorrelationId::from_string("550E8400-E29B-41D4-A716-446655440000").unwrap();
    assert_eq!(upper, id);
    let v: u128 = id.into();
    assert_eq!(CorrelationId::from(v), id);
}

#[test]
fn random_correlation_ids_are_version_four() {
    let id = CorrelationId::new();
    let v = id.as_uuid();
    assert_eq!((v >> 76) & 0xf, 4);
    assert_eq!((v >> 62) & 0x3, 2);
    assert_eq!(&id.to_string()[14..15], "4");
}

#[test]
fn test_health_check_clone() {
    let health = Arc::new(std::sync::Mutex::new(HealthCheck::new()));
    health.lock().unwrap().set_degraded("Original");

    let cloned = health.clone();
    assert_eq!(cloned.lock().unwrap().status(), HealthStatus::Degraded);
    assert_eq!(cloned.lock().unwrap().message(), Some("Original".to_string()));

    cloned.lock().unwrap().set_healthy();
    assert_eq!(health.lock().unwrap().status(), HealthStatus::Healthy);
    assert_eq!(health.lock().unwrap().message(), None);
}

#[test]
fn test_observer_clone() {
    let observer: Arc<std::sync::Mutex<ErrorObserver<Callback>>> =
        Arc::new(std::sync::Mutex::new(ErrorObserver::new()));
    let counter = Arc::new(AtomicU64::new(0));
    let counter_clone = counter.clone();

    observer.lock().unwrap().on_error(Box::new(move |_: &BdrpcError| {
        counter_clone.fetch_add(1, Ordering::Relaxed);
    }));

    let observer_clone = observer.clone();
    let error = BdrpcError::Transport(TransportError::Closed);
    observer_clone.lock().unwrap().notify(&error);

    assert_eq!(counter.load(Ordering::Relaxed), 1);
}
