use bdrpc::channel::correlation::CorrelationIdGenerator;
use bdrpc::channel::manager::ChannelManager;
use bdrpc::channel::pending::PendingRequests;
use bdrpc::channel::protocol::validate_features;
use bdrpc::channel::system::{system_channel_id, SystemProtocol};
use bdrpc::channel::Protocol;
use bdrpc::endpoint::ProtocolDirection;
use bdrpc::{ChannelError, ChannelId};
use std::collections::HashMap;

#[test]
fn test_generator_starts_at_one() {
    let mut generator = CorrelationIdGenerator::new();
    assert_eq!(generator.next(), 1);
}

#[test]
fn test_generator_increments() {
    let mut generator = CorrelationIdGenerator::new();
    assert_eq!(generator.next(), 1);
    assert_eq!(generator.next(), 2);
    assert_eq!(generator.next(), 3);
}

#[test]
fn test_generator_current() {
    let mut generator = CorrelationIdGenerator::new();
    assert_eq!(generator.current(), 1);
    let _ = generator.next();
    assert_eq!(generator.current(), 2);
}

#[test]
fn test_generator_uniqueness() {
    let mut generator = CorrelationIdGenerator::new();
    let mut ids = std::collections::HashSet::new();
    for _ in 0..1000 {
        let id = generator.next();
        assert!(ids.insert(id), "Duplicate ID generated: {}", id);
    }
}

#[test]
fn test_error_is_recoverable() {
    let full = ChannelError::Full { channel_id: ChannelId::from(1), buffer_size: 100 };
    assert!(full.is_recoverable());

    let closed = ChannelError::Closed { channel_id: ChannelId::from(1) };
    assert!(!closed.is_recoverable());
}

#[test]
fn test_error_is_closed() {
    let closed = ChannelError::Closed { channel_id: ChannelId::from(1) };
    assert!(closed.is_closed());

    let not_found = ChannelError::NotFound { channel_id: ChannelId::from(1) };
    assert!(!not_found.is_closed());
}

#[test]
fn test_error_channel_id() {
    let closed = ChannelError::Closed { channel_id: ChannelId::from(42) };
    assert_eq!(closed.channel_id(), Some(ChannelId::from(42)));

    let internal = ChannelError::Internal { message: "test".to_string() };
    assert_eq!(internal.channel_id(), None);
}

#[test]
fn error_test_error_display() {
    let closed = ChannelError::Closed { channel_id: ChannelId::from(1) };
    assert_eq!(closed.to_string(), "Channel Channel(1) is closed");

    let out_of_order =
        ChannelError::OutOfOrder { channel_id: ChannelId::from(1), expected: 5, received: 7 };
    assert!(out_of_order.to_string().contains("out of order"));
}

#[test]
fn test_channel_id_from_u64() {
    let id = ChannelId::from(42);
    assert_eq!(id.as_u64(), 42);
}

#[test]
fn test_channel_id_conversion() {
    let value: u64 = 100;
    let id = ChannelId::from(value);
    let back: u64 = id.into();
    assert_eq!(value, back);
}

#[test]
fn test_channel_id_display() {
    let id = ChannelId::from(42);
    assert_eq!(id.to_string(), "Channel(42)");
}

#[test]
fn test_system_channel_id_is_zero() {
    assert_eq!(system_channel_id().as_u64(), 0);
}

#[test]
fn test_channel_create_request_method_name() {
    let request = SystemProtocol::ChannelCreateRequest {
        channel_id: ChannelId::from(1),
        protocol_name: "Test".to_string(),
        protocol_version: 1,
        direction: ProtocolDirection::Bidirectional,
        buffer_size: Some(100),
        metadata: HashMap::new(),
    };
    assert_eq!(request.method_name(), "channel_create_request");
    assert!(request.is_request());
}

#[test]
fn test_channel_create_response_method_name() {
    let response =
        SystemProtocol::ChannelCreateResponse { channel_id: ChannelId::from(1), success: true, error: None };
    assert_eq!(response.method_name(), "channel_create_response");
    assert!(!response.is_request());
}

#[test]
fn test_channel_close_notification_method_name() {
    let notification = SystemProtocol::ChannelCloseNotification {
        channel_id: ChannelId::from(1),
        reason: "Test".to_string(),
    };
    assert_eq!(notification.method_name(), "channel_close_notification");
    assert!(notification.is_request());
}

#[test]
fn test_channel_close_ack_method_name() {
    let ack = SystemProtocol::ChannelCloseAck { channel_id: ChannelId::from(1) };
    assert_eq!(ack.method_name(), "channel_close_ack");
    assert!(!ack.is_request());
}

#[test]
fn test_ping_method_name() {
    let ping = SystemProtocol::Ping { timestamp: 12345 };
    assert_eq!(ping.method_name(), "ping");
    assert!(ping.is_request());
}

#[test]
fn test_pong_method_name() {
    let pong = SystemProtocol::Pong { timestamp: 12345 };
    assert_eq!(pong.method_name(), "pong");
    assert!(!pong.is_request());
}

#[test]
fn channel_id_ordering_follows_numbers() {
    assert!(ChannelId::from(1) < ChannelId::from(2));
    assert_eq!(ChannelId::from_u64(9), ChannelId::from(9));
}

#[test]
fn channel_error_texts() {
    let not_found = ChannelError::NotFound { channel_id: ChannelId::from(3) };
    assert_eq!(not_found.to_string(), "Channel Channel(3) not found");
    let exists = ChannelError::AlreadyExists { channel_id: ChannelId::from(4) };
    assert!(exists.to_string().contains("Channel(4)"));
    let timeout =
        ChannelError::Timeout { channel_id: ChannelId::from(5), operation: "send".to_string() };
    assert!(timeout.is_timeout());
    assert!(timeout.is_recoverable());
    assert!(!timeout.is_closed());
}

#[test]
fn pending_register_then_complete() {
    let mut pending = PendingRequests::<String>::new();
    assert!(pending.is_empty());
    let mut rx = pending.register(42);
    assert_eq!(pending.len(), 1);
    assert!(!pending.is_empty());
    assert!(pending.complete(42, "response".to_string()));
    assert_eq!(rx.try_recv().unwrap(), "response");
    assert!(pending.is_empty());
    assert!(!pending.complete(42, "again".to_string()));
}

#[test]
fn pending_cancel_closes_the_waiting_half() {
    let mut pending = PendingRequests::<String>::new();
    let mut rx = pending.register(7);
    assert!(pending.cancel(7));
    assert!(rx.try_recv().is_err());
    assert!(!pending.cancel(7));
    assert_eq!(pending.len(), 0);
}

#[test]
fn pending_unknown_identifier_is_not_completed() {
    let mut pending = PendingRequests::<u32>::default();
    let _rx = pending.register(1);
    assert!(!pending.complete(2, 5));
    assert!(!pending.cancel(3));
    assert_eq!(pending.len(), 1);
}

#[test]
fn pending_complete_after_caller_left_is_false() {
    let mut pending = PendingRequests::<u32>::new();
    let rx = pending.register(9);
    drop(rx);
    assert!(!pending.complete(9, 1));
    assert!(pending.is_empty());
}

#[test]
fn manager_create_and_find() {
    let mut manager: ChannelManager<String, u32> = ChannelManager::new();
    assert!(manager.create_channel(ChannelId::from(1), "tx".to_string(), 10).is_ok());
    assert!(manager.has_channel(ChannelId::from(1)));
    assert_eq!(manager.channel_count(), 1);
    assert_eq!(manager.get_sender(ChannelId::from(1)).unwrap(), "tx");
    assert_eq!(
        manager.get_sender(ChannelId::from(2)).err(),
        Some(ChannelError::NotFound { channel_id: ChannelId::from(2) })
    );
}

#[test]
fn manager_refuses_duplicates() {
    let mut manager: ChannelManager<String, u32> = ChannelManager::default();
    manager.create_channel(ChannelId::from(5), "a".to_string(), 1).unwrap();
    let again = manager.create_channel(ChannelId::from(5), "b".to_string(), 2);
    assert_eq!(again, Err(ChannelError::AlreadyExists { channel_id: ChannelId::from(5) }));
    assert_eq!(manager.get_sender(ChannelId::from(5)).unwrap(), "a");
    assert_eq!(manager.channel_count(), 1);
}

#[test]
fn manager_receiver_taken_once() {
    let mut manager: ChannelManager<String, u32> = ChannelManager::new();
    manager.create_channel(ChannelId::from(3), "tx".to_string(), 33).unwrap();
    assert_eq!(manager.get_receiver(ChannelId::from(3)), Ok(33));
    assert_eq!(
        manager.get_receiver(ChannelId::from(3)),
        Err(ChannelError::NotFound { channel_id: ChannelId::from(3) })
    );
    assert!(manager.has_channel(ChannelId::from(3)));
    assert_eq!(
        manager.get_receiver(ChannelId::from(4)),
        Err(ChannelError::NotFound { channel_id: ChannelId::from(4) })
    );
}

#[test]
fn manager_remove_and_ids() {
    let mut manager: ChannelManager<u8, u8> = ChannelManager::new();
    for n in 1..=4u64 {
        manager.create_channel(ChannelId::from(n), n as u8, 0).unwrap();
    }
    let mut ids: Vec<u64> = manager.channel_ids().iter().map(|id| id.as_u64()).collect();
    ids.sort();
    assert_eq!(ids, vec![1, 2, 3, 4]);
    assert!(manager.remove_channel(ChannelId::from(2)).is_ok());
    assert_eq!(
        manager.remove_channel(ChannelId::from(2)),
        Err(ChannelError::NotFound { channel_id: ChannelId::from(2) })
    );
    assert!(!manager.has_channel(ChannelId::from(2)));
    assert_eq!(manager.channel_count(), 3);
}

#[test]
fn manager_cleanup_removes_closed_only() {
    let mut manager: ChannelManager<bool, u8> = ChannelManager::new();
    manager.create_channel(ChannelId::from(1), true, 0).unwrap();
    manager.create_channel(ChannelId::from(2), false, 0).unwrap();
    manager.create_channel(ChannelId::from(3), true, 0).unwrap();
    let removed = manager.cleanup_closed_channels(|closed: &bool| *closed);
    assert_eq!(removed, 2);
    assert_eq!(manager.channel_count(), 1);
    assert!(manager.has_channel(ChannelId::from(2)));
    assert_eq!(manager.cleanup_closed_channels(|closed: &bool| *closed), 0);
}

#[derive(Debug)]
enum FeatureTestProtocol {
    BasicMessage(String),
    StreamingMessage(String),
}

impl Protocol for FeatureTestProtocol {
    fn method_name(&self) -> &'static str {
        match self {
            FeatureTestProtocol::BasicMessage(_) => "basic",
            FeatureTestProtocol::StreamingMessage(_) => "streaming",
        }
    }

    fn is_request(&self) -> bool {
        true
    }

    fn required_features(&self) -> &'static [&'static str] {
        match self {
            FeatureTestProtocol::BasicMessage(_) => &[],
            FeatureTestProtocol::StreamingMessage(_) => &["streaming"],
        }
    }
}

#[test]
fn test_channel_try_send_missing_feature() {
    let features: Vec<String> = Vec::new();
    let message = FeatureTestProtocol::StreamingMessage("test".to_string());
    let result = validate_features(
        ChannelId::from(1),
        &features,
        message.required_features(),
        message.method_name(),
    );
    assert!(matches!(result, Err(ChannelError::FeatureNotSupported { .. })));
}

#[test]
fn features_present_pass_validation() {
    let features = vec!["streaming".to_string()];
    let streaming = FeatureTestProtocol::StreamingMessage("s".to_string());
    assert!(validate_features(
        ChannelId::from(1),
        &features,
        streaming.required_features(),
        streaming.method_name()
    )
    .is_ok());
    let basic = FeatureTestProtocol::BasicMessage("b".to_string());
    assert!(validate_features(
        ChannelId::from(1),
        &Vec::new(),
        basic.required_features(),
        basic.method_name()
    )
    .is_ok());
    let missing = validate_features(
        ChannelId::from(4),
        &Vec::new(),
        streaming.required_features(),
        streaming.method_name(),
    );
    assert_eq!(
        missing,
        Err(ChannelError::FeatureNotSupported {
            channel_id: ChannelId::from(4),
            feature: "streaming".to_string(),
            method: "streaming".to_string(),
        })
    );
}

#[test]
fn pending_dispatch_routes_responses_only() {
    let mut pending = PendingRequests::<String>::new();
    let mut rx = pending.register(5);
    assert!(!pending.dispatch_response(None, false, "lost".to_string()));
    assert!(!pending.dispatch_response(Some(5), true, "request".to_string()));
    assert_eq!(pending.len(), 1);
    assert!(pending.dispatch_response(Some(5), false, "answer".to_string()));
    assert_eq!(rx.try_recv().unwrap(), "answer");
    assert!(pending.is_empty());
}

#[test]
fn pending_contains_registered_only() {
    let mut pending = PendingRequests::<u8>::new();
    assert!(!pending.contains(3));
    let _rx = pending.register(3);
    assert!(pending.contains(3));
    assert!(pending.cancel(3));
    assert!(!pending.contains(3));
}
