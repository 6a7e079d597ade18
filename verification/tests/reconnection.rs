use bdrpc::reconnection::{
    CircuitBreaker, CircuitState, NoReconnect, ReconnectionMetrics, ReconnectionStrategy,
};
use bdrpc::TransportError;
use std::time::{Duration, Instant};

/// Spins until `d` has passed.
fn wait_for(d: Duration) {
    let start = Instant::now();
    while start.elapsed() < d {
        std::hint::spin_loop();
    }
}

#[test]
fn circuit_breaker_test_default() {
    let strategy = CircuitBreaker::default();
    assert_eq!(strategy.failure_threshold(), 5);
    assert_eq!(strategy.timeout(), Duration::from_secs(60));
    assert_eq!(strategy.half_open_attempts(), 3);
    assert_eq!(strategy.state(), CircuitState::Closed);
}

#[test]
fn test_builder() {
    let strategy = CircuitBreaker::builder()
        .failure_threshold(10)
        .timeout(Duration::from_secs(30))
        .half_open_attempts(5)
        .build();
    assert_eq!(strategy.failure_threshold(), 10);
    assert_eq!(strategy.timeout(), Duration::from_secs(30));
    assert_eq!(strategy.half_open_attempts(), 5);
}

#[test]
fn test_on_connected_closes_circuit() {
    let mut strategy = CircuitBreaker::builder().failure_threshold(2).build();
    let error = TransportError::connection_failed("test");

    strategy.on_disconnected(&error);
    strategy.on_disconnected(&error);
    assert_eq!(strategy.state(), CircuitState::Open);

    strategy.on_connected();
    assert_eq!(strategy.state(), CircuitState::Closed);

    let metrics = strategy.metrics();
    assert_eq!(metrics.consecutive_failures, 0);
}

#[test]
fn test_close_circuit_manual() {
    let mut strategy = CircuitBreaker::builder().failure_threshold(2).build();
    let error = TransportError::connection_failed("test");

    strategy.on_disconnected(&error);
    strategy.on_disconnected(&error);
    assert_eq!(strategy.state(), CircuitState::Open);

    strategy.close_circuit();
    assert_eq!(strategy.state(), CircuitState::Closed);
}

#[test]
fn circuit_breaker_test_reset() {
    let mut strategy = CircuitBreaker::builder().failure_threshold(2).build();
    let error = TransportError::connection_failed("test");

    strategy.on_disconnected(&error);
    strategy.on_disconnected(&error);
    assert_eq!(strategy.state(), CircuitState::Open);

    strategy.reset();
    assert_eq!(strategy.state(), CircuitState::Closed);
    let metrics = strategy.metrics();
    assert_eq!(metrics.failed_reconnections, 0);
}

#[test]
fn circuit_breaker_test_name() {
    let strategy = CircuitBreaker::default();
    assert_eq!(strategy.name(), "CircuitBreaker");
}

#[test]
fn circuit_opens_after_threshold() {
    let mut strategy = CircuitBreaker::builder().failure_threshold(3).build();
    let error = TransportError::connection_failed("test");

    assert_eq!(strategy.state(), CircuitState::Closed);
    assert!(strategy.should_reconnect(0, &error));
    strategy.on_disconnected(&error);
    assert_eq!(strategy.state(), CircuitState::Closed);
    assert!(strategy.should_reconnect(1, &error));
    strategy.on_disconnected(&error);
    assert_eq!(strategy.state(), CircuitState::Closed);
    assert!(strategy.should_reconnect(2, &error));
    strategy.on_disconnected(&error);

    assert_eq!(strategy.state(), CircuitState::Open);
    assert!(!strategy.should_reconnect(3, &error));
}

#[test]
fn circuit_half_open_after_timeout() {
    let mut strategy = CircuitBreaker::builder()
        .failure_threshold(2)
        .timeout(Duration::from_millis(100))
        .half_open_attempts(2)
        .build();
    let error = TransportError::connection_failed("test");

    strategy.on_disconnected(&error);
    strategy.on_disconnected(&error);
    assert_eq!(strategy.state(), CircuitState::Open);

    wait_for(Duration::from_millis(150));

    assert!(strategy.should_reconnect(0, &error));
    assert_eq!(strategy.state(), CircuitState::HalfOpen);
}

#[test]
fn half_open_limited_attempts() {
    let mut strategy = CircuitBreaker::builder()
        .failure_threshold(1)
        .timeout(Duration::from_millis(10))
        .half_open_attempts(2)
        .build();
    let error = TransportError::connection_failed("test");

    strategy.on_disconnected(&error);
    assert_eq!(strategy.state(), CircuitState::Open);

    wait_for(Duration::from_millis(20));

    assert!(strategy.should_reconnect(0, &error));
    assert!(strategy.should_reconnect(1, &error));
    assert!(!strategy.should_reconnect(2, &error));
    assert_eq!(strategy.state(), CircuitState::Open);
}

#[test]
fn circuit_breaker_never_retries_invalid_configuration() {
    let mut strategy = CircuitBreaker::default();
    let error = TransportError::invalid_configuration("bad config");
    assert!(!strategy.should_reconnect(0, &error));
}

#[test]
fn circuit_breaker_waits_a_tenth_of_a_second() {
    let strategy = CircuitBreaker::default();
    assert_eq!(strategy.next_delay(0), Duration::from_millis(100));
    assert_eq!(strategy.next_delay(7), Duration::from_millis(100));
}

#[test]
fn no_reconnect_test_new() {
    let strategy = NoReconnect::new();
    let metrics = strategy.metrics();
    assert_eq!(metrics.total_attempts, 0);
}

#[test]
fn no_reconnect_test_default() {
    let strategy = NoReconnect::default();
    let metrics = strategy.metrics();
    assert_eq!(metrics.total_attempts, 0);
}

#[test]
fn test_on_connected() {
    let mut strategy = NoReconnect::new();

    strategy.on_connected();

    let metrics = strategy.metrics();
    assert_eq!(metrics.successful_reconnections, 1);
}

#[test]
fn test_on_disconnected() {
    let mut strategy = NoReconnect::new();
    let error = TransportError::connection_failed("test");

    strategy.on_disconnected(&error);

    let metrics = strategy.metrics();
    assert_eq!(metrics.failed_reconnections, 1);
    assert_eq!(metrics.consecutive_failures, 1);
    assert!(metrics.last_error.is_some());
}

#[test]
fn no_reconnect_test_reset() {
    let mut strategy = NoReconnect::new();
    let error = TransportError::connection_failed("test");

    strategy.on_disconnected(&error);
    strategy.reset();

    let metrics = strategy.metrics();
    assert_eq!(metrics.failed_reconnections, 0);
    assert_eq!(metrics.consecutive_failures, 0);
}

#[test]
fn no_reconnect_test_name() {
    let strategy = NoReconnect::new();
    assert_eq!(strategy.name(), "NoReconnect");
}

#[test]
fn no_reconnect_never_retries() {
    let mut strategy = NoReconnect::new();
    let error1 = TransportError::connection_failed("test");
    let error2 = TransportError::connection_lost("test");
    let error3 = TransportError::invalid_configuration("test");
    assert!(!strategy.should_reconnect(0, &error1));
    assert!(!strategy.should_reconnect(1, &error1));
    assert!(!strategy.should_reconnect(100, &error1));
    assert!(!strategy.should_reconnect(0, &error2));
    assert!(!strategy.should_reconnect(0, &error3));
    assert_eq!(strategy.next_delay(0), Duration::from_secs(0));
}

#[test]
fn test_metrics_new() {
    let metrics = ReconnectionMetrics::new();
    assert_eq!(metrics.total_attempts, 0);
    assert_eq!(metrics.successful_reconnections, 0);
    assert_eq!(metrics.failed_reconnections, 0);
    assert_eq!(metrics.consecutive_failures, 0);
    assert!(metrics.last_error.is_none());
}

#[test]
fn test_metrics_record_attempt() {
    let mut metrics = ReconnectionMetrics::new();
    metrics.record_attempt();
    assert_eq!(metrics.total_attempts, 1);
}

#[test]
fn test_metrics_record_success() {
    let mut metrics = ReconnectionMetrics::new();
    metrics.consecutive_failures = 5;
    metrics.last_error = Some("error".to_string());

    metrics.record_success();

    assert_eq!(metrics.successful_reconnections, 1);
    assert_eq!(metrics.consecutive_failures, 0);
    assert!(metrics.last_error.is_none());
}

#[test]
fn test_metrics_record_failure() {
    let mut metrics = ReconnectionMetrics::new();
    let error = TransportError::connection_failed("test");

    metrics.record_failure(&error);

    assert_eq!(metrics.failed_reconnections, 1);
    assert_eq!(metrics.consecutive_failures, 1);
    assert!(metrics.last_error.is_some());
    assert_eq!(metrics.last_error, Some("connection to 'test' failed: ".to_string()));
}

#[test]
fn traits_test_metrics_reset() {
    let mut metrics = ReconnectionMetrics::new();
    metrics.total_attempts = 10;
    metrics.successful_reconnections = 5;
    metrics.failed_reconnections = 5;
    metrics.consecutive_failures = 3;
    metrics.last_error = Some("error".to_string());

    metrics.reset();

    assert_eq!(metrics.total_attempts, 0);
    assert_eq!(metrics.successful_reconnections, 0);
    assert_eq!(metrics.failed_reconnections, 0);
    assert_eq!(metrics.consecutive_failures, 0);
    assert!(metrics.last_error.is_none());
}
