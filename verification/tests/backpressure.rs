use bdrpc::backpressure::{BackpressureMetrics, BackpressureStrategy, BoundedQueue, Unlimited};
use bdrpc::ChannelId;

#[test]
fn bounded_queue_test_new() {
    let strategy = BoundedQueue::new(100);
    assert_eq!(strategy.capacity(), 100);
    assert_eq!(strategy.queue_depth(), 0);
}

#[test]
fn bounded_queue_test_name() {
    let strategy = BoundedQueue::new(100);
    assert_eq!(strategy.name(), "BoundedQueue");
}

#[test]
fn traits_test_metrics_new() {
    let metrics = BackpressureMetrics::new(100);
    assert_eq!(metrics.capacity, 100);
    assert_eq!(metrics.queue_depth, 0);
    assert_eq!(metrics.messages_sent, 0);
    assert_eq!(metrics.messages_received, 0);
    assert_eq!(metrics.wait_time_ms, 0);
}

#[test]
fn test_metrics_is_full() {
    let mut metrics = BackpressureMetrics::new(100);
    assert!(!metrics.is_full());

    metrics.queue_depth = 99;
    assert!(!metrics.is_full());

    metrics.queue_depth = 100;
    assert!(metrics.is_full());

    metrics.queue_depth = 101;
    assert!(metrics.is_full());
}

#[test]
fn test_metrics_is_empty() {
    let mut metrics = BackpressureMetrics::new(100);
    assert!(metrics.is_empty());

    metrics.queue_depth = 1;
    assert!(!metrics.is_empty());
}

#[test]
fn unlimited_test_new() {
    let strategy = Unlimited::new();
    let metrics = strategy.metrics();
    assert_eq!(metrics.messages_sent, 0);
    assert_eq!(metrics.messages_received, 0);
}

#[test]
fn unlimited_test_default() {
    let strategy = Unlimited::default();
    let metrics = strategy.metrics();
    assert_eq!(metrics.messages_sent, 0);
    assert_eq!(metrics.messages_received, 0);
}

#[test]
fn unlimited_test_name() {
    let strategy = Unlimited::new();
    assert_eq!(strategy.name(), "Unlimited");
}

#[test]
fn bounded_queue_admits_below_capacity_only() {
    let strategy = BoundedQueue::new(10);
    let channel_id = ChannelId::from(1);
    assert!(strategy.should_send(&channel_id, 0));
    assert!(strategy.should_send(&channel_id, 5));
    assert!(strategy.should_send(&channel_id, 9));
    assert!(!strategy.should_send(&channel_id, 10));
    assert!(!strategy.should_send(&channel_id, 11));
}

#[test]
fn bounded_queue_send_receive_cycle() {
    let mut strategy = BoundedQueue::new(10);
    let channel_id = ChannelId::from(1);
    for _ in 0..10 {
        strategy.on_message_sent(&channel_id);
    }
    assert_eq!(strategy.queue_depth(), 10);
    assert!(!strategy.has_capacity());
    for _ in 0..5 {
        strategy.on_message_received(&channel_id);
    }
    let metrics = strategy.metrics();
    assert_eq!(metrics.queue_depth, 5);
    assert_eq!(metrics.messages_sent, 10);
    assert_eq!(metrics.messages_received, 5);
    assert!(strategy.has_capacity());
}

#[test]
fn bounded_queue_round_trip_restores_depth() {
    let mut strategy = BoundedQueue::new(3);
    let channel_id = ChannelId::from(7);
    strategy.on_message_sent(&channel_id);
    let before = strategy.queue_depth();
    strategy.on_message_sent(&channel_id);
    strategy.on_message_received(&channel_id);
    assert_eq!(strategy.queue_depth(), before);
}

#[test]
fn bounded_queue_release_wakes_only_from_full() {
    let mut strategy = BoundedQueue::new(2);
    let channel_id = ChannelId::from(3);
    strategy.on_message_sent(&channel_id);
    assert!(!strategy.release());
    strategy.on_message_sent(&channel_id);
    strategy.on_message_sent(&channel_id);
    assert!(strategy.release());
}

#[test]
fn bounded_queue_records_wait_time() {
    let mut strategy = BoundedQueue::new(2);
    strategy.record_wait(15);
    strategy.record_wait(5);
    assert_eq!(strategy.metrics().wait_time_ms, 20);
}

#[test]
fn unlimited_always_admits_and_counts() {
    let mut strategy = Unlimited::new();
    let channel_id = ChannelId::from(2);
    assert!(strategy.should_send(&channel_id, 0));
    assert!(strategy.should_send(&channel_id, usize::MAX));
    for _ in 0..10 {
        strategy.on_message_sent(&channel_id);
    }
    for _ in 0..5 {
        strategy.on_message_received(&channel_id);
    }
    let metrics = strategy.metrics();
    assert_eq!(metrics.messages_sent, 10);
    assert_eq!(metrics.messages_received, 5);
    assert_eq!(metrics.queue_depth, 5);
    assert_eq!(metrics.capacity, usize::MAX);
    assert_eq!(metrics.wait_time_ms, 0);
}
