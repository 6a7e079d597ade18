use bdrpc::channel::system::SystemProtocol;
use bdrpc::endpoint::builder::EndpointBuilder;
use bdrpc::endpoint::error::EndpointErrorSource;
use bdrpc::endpoint::negotiator::{ChannelNegotiator, DefaultChannelNegotiator};
use bdrpc::endpoint::registry::{Connection, ProtocolRegistry};
use bdrpc::endpoint::session::{
    channel_direction_for, channel_request_outcome, check_channel_request, check_frame_length,
    check_manual_listener, check_peer_hello, check_request_not_pending, connect_step,
    decode_frame_length, encode_frame_length, handle_system_message, reconnectable_failure,
    retry_step, usable_direction, ConnectStep, SystemAction,
};
use bdrpc::reconnection::{CircuitBreaker, NoReconnect};
use bdrpc::endpoint::{
    negotiate_protocols, negotiate_protocols_strict, negotiate_version, EndpointConfig,
    EndpointError, HandshakeMessage, NegotiatedProtocol, ProtocolCapability, ProtocolDirection,
};
use bdrpc::{ChannelId, TransportError};
use std::collections::HashMap;
use std::time::Duration;

#[test]
fn test_default_config() {
    let config = EndpointConfig::default();
    assert_eq!(config.channel_buffer_size, 100);
    assert_eq!(config.handshake_timeout, Duration::from_secs(5));
    assert_eq!(config.max_connections, None);
    assert_eq!(config.max_frame_size, 16 * 1024 * 1024);
    assert!(config.enable_frame_integrity);
    assert_eq!(config.endpoint_id, None);
}

#[test]
fn test_builder_pattern() {
    let config = EndpointConfig::new()
        .with_channel_buffer_size(1000)
        .with_handshake_timeout(Duration::from_secs(10))
        .with_max_connections(Some(100))
        .with_max_frame_size(32 * 1024 * 1024)
        .with_frame_integrity(false)
        .with_endpoint_id("test-endpoint".to_string());

    assert_eq!(config.channel_buffer_size, 1000);
    assert_eq!(config.handshake_timeout, Duration::from_secs(10));
    assert_eq!(config.max_connections, Some(100));
    assert_eq!(config.max_frame_size, 32 * 1024 * 1024);
    assert!(!config.enable_frame_integrity);
    assert_eq!(config.endpoint_id, Some("test-endpoint".to_string()));
}

#[test]
fn test_validate_valid() {
    let config = EndpointConfig::default();
    assert!(config.validate().is_ok());
}

#[test]
fn test_validate_zero_buffer() {
    let config = EndpointConfig { channel_buffer_size: 0, ..Default::default() };
    assert!(config.validate().is_err());
}

#[test]
fn test_validate_zero_frame_size() {
    let config = EndpointConfig { max_frame_size: 0, ..Default::default() };
    assert!(config.validate().is_err());
}

#[test]
fn test_validate_zero_timeout() {
    let config = EndpointConfig { handshake_timeout: Duration::from_secs(0), ..Default::default() };
    assert!(config.validate().is_err());
}

#[test]
fn validation_messages_name_the_setting() {
    let config = EndpointConfig { channel_buffer_size: 0, max_frame_size: 0, ..Default::default() };
    assert_eq!(config.validate(), Err("channel_buffer_size must be greater than 0".to_string()));
    let config = EndpointConfig { max_frame_size: 0, ..Default::default() };
    assert_eq!(config.validate(), Err("max_frame_size must be greater than 0".to_string()));
    let config = EndpointConfig { handshake_timeout: Duration::ZERO, ..Default::default() };
    assert_eq!(config.validate(), Err("handshake_timeout must be greater than 0".to_string()));
}

#[test]
fn test_can_call() {
    assert!(ProtocolDirection::CallOnly.can_call());
    assert!(!ProtocolDirection::RespondOnly.can_call());
    assert!(ProtocolDirection::Bidirectional.can_call());
}

#[test]
fn test_can_respond() {
    assert!(!ProtocolDirection::CallOnly.can_respond());
    assert!(ProtocolDirection::RespondOnly.can_respond());
    assert!(ProtocolDirection::Bidirectional.can_respond());
}

#[test]
fn test_compatibility() {
    let call = ProtocolDirection::CallOnly;
    let respond = ProtocolDirection::RespondOnly;
    let bi = ProtocolDirection::Bidirectional;

    assert!(call.is_compatible_with(&respond));
    assert!(respond.is_compatible_with(&call));

    assert!(bi.is_compatible_with(&call));
    assert!(bi.is_compatible_with(&respond));
    assert!(bi.is_compatible_with(&bi));
    assert!(call.is_compatible_with(&bi));
    assert!(respond.is_compatible_with(&bi));

    assert!(!call.is_compatible_with(&call));
    assert!(!respond.is_compatible_with(&respond));
}

#[test]
fn direction_test_default() {
    assert_eq!(ProtocolDirection::default(), ProtocolDirection::Bidirectional);
}

#[test]
fn direction_test_display() {
    assert_eq!(ProtocolDirection::CallOnly.to_string(), "call only");
    assert_eq!(ProtocolDirection::RespondOnly.to_string(), "respond only");
    assert_eq!(ProtocolDirection::Bidirectional.to_string(), "bidirectional");
}

#[test]
fn test_error_display() {
    let err = EndpointError::ProtocolNotRegistered { protocol: "TestProtocol".to_string() };
    assert_eq!(err.to_string(), "protocol 'TestProtocol' is not registered");

    let err = EndpointError::DirectionNotSupported {
        protocol: "TestProtocol".to_string(),
        operation: "call".to_string(),
        our_direction: ProtocolDirection::RespondOnly,
    };
    assert_eq!(err.to_string(), "cannot call protocol 'TestProtocol': endpoint is respond only only");

    let err = EndpointError::IncompatibleDirection {
        protocol: "TestProtocol".to_string(),
        our_direction: ProtocolDirection::CallOnly,
        peer_direction: ProtocolDirection::CallOnly,
    };
    assert_eq!(
        err.to_string(),
        "incompatible directions for protocol 'TestProtocol': we are call only, peer is call only"
    );

    let err = EndpointError::NoCommonVersion {
        protocol: "TestProtocol".to_string(),
        our_versions: vec![1, 2],
        peer_versions: vec![3, 4],
    };
    assert_eq!(
        err.to_string(),
        "no common version for protocol 'TestProtocol': we support [1, 2], peer supports [3, 4]"
    );

    let err = EndpointError::FeatureNotSupported {
        protocol: "TestProtocol".to_string(),
        feature: "streaming".to_string(),
    };
    assert_eq!(err.to_string(), "feature 'streaming' not supported for protocol 'TestProtocol'");
}

#[test]
fn test_error_from_transport() {
    let transport_err = TransportError::Closed;
    let endpoint_err: EndpointError = transport_err.into();
    assert!(matches!(endpoint_err, EndpointError::Transport(_)));
}

#[test]
fn test_error_from_io() {
    let io_err = std::io::Error::new(std::io::ErrorKind::Other, "test error");
    let endpoint_err: EndpointError = io_err.into();
    assert!(matches!(endpoint_err, EndpointError::Io(_)));
}

#[test]
fn io_error_text_keeps_its_message() {
    let io_err = std::io::Error::new(std::io::ErrorKind::Other, "disk gone");
    let endpoint_err: EndpointError = io_err.into();
    let text = endpoint_err.to_string();
    assert!(text.starts_with("I/O error: "));
    assert!(text.contains("disk gone"));
}

#[test]
fn test_protocol_capability_new() {
    let cap = ProtocolCapability::new("TestProtocol", vec![1, 2], ProtocolDirection::CallOnly);
    assert_eq!(cap.protocol_name, "TestProtocol");
    assert_eq!(cap.supported_versions, vec![1, 2]);
    assert_eq!(cap.direction, ProtocolDirection::CallOnly);
    assert!(cap.features.is_empty());
}

#[test]
fn test_protocol_capability_with_feature() {
    let cap = ProtocolCapability::new("TestProtocol", vec![1], ProtocolDirection::Bidirectional)
        .with_feature("streaming")
        .with_feature("compression");
    assert!(cap.has_feature("streaming"));
    assert!(cap.has_feature("compression"));
    assert!(!cap.has_feature("encryption"));
}

#[test]
fn with_feature_keeps_each_feature_once() {
    let cap = ProtocolCapability::new("P", vec![1], ProtocolDirection::Bidirectional)
        .with_feature("streaming")
        .with_feature("streaming");
    assert_eq!(cap.features, vec!["streaming".to_string()]);
    assert!(cap.supports_version(1));
    assert!(!cap.supports_version(2));
}

#[test]
fn test_negotiate_version() {
    let our_cap = ProtocolCapability::new("Test", vec![1, 2, 3], ProtocolDirection::CallOnly);
    let peer_cap = ProtocolCapability::new("Test", vec![2, 3, 4], ProtocolDirection::RespondOnly);

    let version = negotiate_version(&our_cap, &peer_cap);
    assert_eq!(version, Some(3));
}

#[test]
fn test_negotiate_version_no_common() {
    let our_cap = ProtocolCapability::new("Test", vec![1, 2], ProtocolDirection::CallOnly);
    let peer_cap = ProtocolCapability::new("Test", vec![3, 4], ProtocolDirection::RespondOnly);

    let version = negotiate_version(&our_cap, &peer_cap);
    assert_eq!(version, None);
}

#[test]
fn test_negotiate_protocols_compatible() {
    let our_caps = vec![ProtocolCapability::new("UserService", vec![1, 2], ProtocolDirection::CallOnly)];
    let peer_caps =
        vec![ProtocolCapability::new("UserService", vec![2, 3], ProtocolDirection::RespondOnly)];

    let negotiated = negotiate_protocols(&our_caps, &peer_caps);
    assert_eq!(negotiated.len(), 1);
    assert_eq!(negotiated[0].name, "UserService");
    assert_eq!(negotiated[0].version, 2);
    assert!(negotiated[0].we_can_call);
    assert!(!negotiated[0].we_can_respond);
}

#[test]
fn test_negotiate_protocols_incompatible_direction() {
    let our_caps = vec![ProtocolCapability::new("UserService", vec![1], ProtocolDirection::CallOnly)];
    let peer_caps = vec![ProtocolCapability::new("UserService", vec![1], ProtocolDirection::CallOnly)];

    let negotiated = negotiate_protocols(&our_caps, &peer_caps);
    assert_eq!(negotiated.len(), 0);
}

#[test]
fn test_negotiate_protocols_bidirectional() {
    let our_caps =
        vec![ProtocolCapability::new("ChatService", vec![1], ProtocolDirection::Bidirectional)];
    let peer_caps =
        vec![ProtocolCapability::new("ChatService", vec![1], ProtocolDirection::Bidirectional)];

    let negotiated = negotiate_protocols(&our_caps, &peer_caps);
    assert_eq!(negotiated.len(), 1);
    assert!(negotiated[0].we_can_call);
    assert!(negotiated[0].we_can_respond);
    assert!(negotiated[0].is_bidirectional());
}

#[test]
fn test_negotiate_protocols_features() {
    let our_caps = vec![ProtocolCapability::new("Service", vec![1], ProtocolDirection::Bidirectional)
        .with_feature("streaming")
        .with_feature("compression")];
    let peer_caps = vec![ProtocolCapability::new("Service", vec![1], ProtocolDirection::Bidirectional)
        .with_feature("streaming")
        .with_feature("encryption")];

    let negotiated = negotiate_protocols(&our_caps, &peer_caps);
    assert_eq!(negotiated.len(), 1);
    assert!(negotiated[0].has_feature("streaming"));
    assert!(!negotiated[0].has_feature("compression"));
    assert!(!negotiated[0].has_feature("encryption"));
}

#[test]
fn test_negotiate_protocols_strict_success() {
    let our_caps = vec![ProtocolCapability::new("UserService", vec![1, 2], ProtocolDirection::CallOnly)];
    let peer_caps =
        vec![ProtocolCapability::new("UserService", vec![2, 3], ProtocolDirection::RespondOnly)];

    let result = negotiate_protocols_strict(&our_caps, &peer_caps);
    assert!(result.is_ok());
    let negotiated = result.unwrap();
    assert_eq!(negotiated.len(), 1);
    assert_eq!(negotiated[0].version, 2);
}

#[test]
fn test_negotiate_protocols_strict_no_common_version() {
    let our_caps = vec![ProtocolCapability::new("UserService", vec![1, 2], ProtocolDirection::CallOnly)];
    let peer_caps =
        vec![ProtocolCapability::new("UserService", vec![3, 4], ProtocolDirection::RespondOnly)];

    let result = negotiate_protocols_strict(&our_caps, &peer_caps);
    assert!(result.is_err());
    let err = result.unwrap_err();
    assert!(err.contains("No common version"));
    assert!(err.contains("UserService"));
}

#[test]
fn test_negotiate_protocols_strict_incompatible_direction() {
    let our_caps = vec![ProtocolCapability::new("UserService", vec![1], ProtocolDirection::CallOnly)];
    let peer_caps = vec![ProtocolCapability::new("UserService", vec![1], ProtocolDirection::CallOnly)];

    let result = negotiate_protocols_strict(&our_caps, &peer_caps);
    assert!(result.is_err());
    let err = result.unwrap_err();
    assert!(err.contains("Incompatible directions"));
}

#[test]
fn test_negotiate_protocols_strict_protocol_not_found() {
    let our_caps = vec![ProtocolCapability::new("UserService", vec![1], ProtocolDirection::CallOnly)];
    let peer_caps =
        vec![ProtocolCapability::new("OtherService", vec![1], ProtocolDirection::RespondOnly)];

    let result = negotiate_protocols_strict(&our_caps, &peer_caps);
    assert!(result.is_err());
    let err = result.unwrap_err();
    assert!(err.contains("not found in peer capabilities"));
}

#[test]
fn test_negotiate_protocols_strict_multiple_errors() {
    let our_caps = vec![
        ProtocolCapability::new("Service1", vec![1, 2], ProtocolDirection::CallOnly),
        ProtocolCapability::new("Service2", vec![1], ProtocolDirection::CallOnly),
    ];
    let peer_caps = vec![
        ProtocolCapability::new("Service1", vec![3, 4], ProtocolDirection::RespondOnly),
        ProtocolCapability::new("Service2", vec![1], ProtocolDirection::CallOnly),
    ];

    let result = negotiate_protocols_strict(&our_caps, &peer_caps);
    assert!(result.is_err());
    let err = result.unwrap_err();
    assert!(err.contains("Service1"));
    assert!(err.contains("Service2"));
}

#[test]
fn test_negotiate_protocols_strict_empty_capabilities() {
    let our_caps: Vec<ProtocolCapability> = vec![];
    let peer_caps: Vec<ProtocolCapability> = vec![];

    let result = negotiate_protocols_strict(&our_caps, &peer_caps);
    assert!(result.is_err());
    let err = result.unwrap_err();
    assert!(err.contains("No protocols could be negotiated"));
}

#[test]
fn negotiation_mirrors_between_the_two_sides() {
    let a = vec![ProtocolCapability::new("Svc", vec![1, 2, 5], ProtocolDirection::CallOnly)
        .with_feature("x")
        .with_feature("y")];
    let b = vec![ProtocolCapability::new("Svc", vec![2, 5, 7], ProtocolDirection::RespondOnly)
        .with_feature("y")];
    let ours = negotiate_protocols(&a, &b);
    let theirs = negotiate_protocols(&b, &a);
    assert_eq!(ours.len(), 1);
    assert_eq!(theirs.len(), 1);
    assert_eq!(ours[0].version, 5);
    assert_eq!(theirs[0].version, 5);
    assert_eq!(ours[0].we_can_call, theirs[0].we_can_respond);
    assert_eq!(ours[0].we_can_respond, theirs[0].we_can_call);
    assert!(ours[0].has_feature("y") && theirs[0].has_feature("y"));
    assert!(!ours[0].has_feature("x"));
}

#[test]
fn negotiated_protocol_new_is_unusable() {
    let p = NegotiatedProtocol::new("P", 3);
    assert_eq!(p.version, 3);
    assert!(!p.is_usable());
    assert!(!p.is_bidirectional());
}

#[test]
fn registry_refuses_a_second_registration() {
    let mut registry = ProtocolRegistry::new();
    assert!(registry.register_caller("A", 1).is_ok());
    assert!(registry.register_responder("B", 2).is_ok());
    match registry.register_bidirectional("A", 3) {
        Err(EndpointError::ProtocolAlreadyRegistered { protocol }) => assert_eq!(protocol, "A"),
        _ => panic!("expected ProtocolAlreadyRegistered"),
    }
    assert!(registry.has_protocol("A"));
    assert!(!registry.has_protocol("C"));
    assert_eq!(registry.protocol_direction("B").unwrap(), ProtocolDirection::RespondOnly);
    assert_eq!(registry.capabilities().len(), 2);
    match registry.protocol_direction("C") {
        Err(EndpointError::ProtocolNotRegistered { protocol }) => assert_eq!(protocol, "C"),
        _ => panic!("expected ProtocolNotRegistered"),
    }
}

#[test]
fn connection_finds_its_protocols() {
    let negotiated = negotiate_protocols(
        &vec![ProtocolCapability::new("A", vec![1], ProtocolDirection::Bidirectional)],
        &vec![ProtocolCapability::new("A", vec![1], ProtocolDirection::CallOnly)],
    );
    let connection = Connection::new("conn-1".to_string(), negotiated);
    assert_eq!(connection.id(), "conn-1");
    assert!(connection.has_protocol("A"));
    assert!(!connection.has_protocol("B"));
    let p = connection.get_protocol("A").unwrap();
    assert!(!p.we_can_call);
    assert!(p.we_can_respond);
    assert_eq!(connection.protocols().len(), 1);
}

#[test]
fn builder_registers_protocols_in_order() {
    let builder = EndpointBuilder::<(), ()>::new(())
        .with_caller("Protocol1", 1)
        .with_responder("Protocol2", 2)
        .with_bidirectional("Protocol3", 3);
    let registry = builder.build_registry().unwrap();
    assert!(registry.has_protocol("Protocol1"));
    assert!(registry.has_protocol("Protocol2"));
    assert!(registry.has_protocol("Protocol3"));
    assert_eq!(registry.protocol_direction("Protocol3").unwrap(), ProtocolDirection::Bidirectional);
}

#[test]
fn builder_duplicate_protocol_error() {
    let builder = EndpointBuilder::<(), ()>::new(())
        .with_caller("TestProtocol", 1)
        .with_caller("TestProtocol", 1);
    match builder.build_registry() {
        Err(EndpointError::ProtocolAlreadyRegistered { protocol }) => {
            assert_eq!(protocol, "TestProtocol")
        },
        _ => panic!("Expected ProtocolAlreadyRegistered error"),
    }
}

#[test]
fn builder_presets_name_the_endpoint() {
    let client = EndpointBuilder::<(), ()>::client(());
    let (_, config, protocols, transports) = client.into_parts();
    let id = config.endpoint_id.unwrap();
    assert!(id.starts_with("client-"));
    assert_eq!(id.len(), 43);
    assert!(protocols.is_empty());
    assert!(transports.is_empty());
    let uuid_part = &id[7..];
    assert_eq!(&uuid_part[14..15], "4");

    let (_, config, _, _) = EndpointBuilder::<(), ()>::server(()).into_parts();
    assert!(config.endpoint_id.unwrap().starts_with("server-"));
    assert_eq!(config.max_connections, Some(1000));

    let (_, config, _, _) = EndpointBuilder::<(), ()>::peer(()).into_parts();
    assert!(config.endpoint_id.unwrap().starts_with("peer-"));
    assert_eq!(config.channel_buffer_size, 200);

    let a = EndpointBuilder::<(), ()>::client(()).into_parts().1.endpoint_id.unwrap();
    let b = EndpointBuilder::<(), ()>::client(()).into_parts().1.endpoint_id.unwrap();
    assert_ne!(a, b);
}

#[test]
fn builder_configure_applies_the_closure() {
    let builder = EndpointBuilder::<(), ()>::new(())
        .configure(|config| config.with_channel_buffer_size(500));
    let (_, config, _, _) = builder.into_parts();
    assert_eq!(config.channel_buffer_size, 500);
}

#[test]
fn frame_length_round_trip() {
    for len in [0u32, 1, 255, 256, 65_536, 16_777_216, u32::MAX] {
        let bytes = encode_frame_length(len);
        assert_eq!(bytes, len.to_be_bytes());
        assert_eq!(decode_frame_length(bytes), len);
    }
}

#[test]
fn frame_length_limit_is_enforced() {
    assert_eq!(check_frame_length(100u32.to_be_bytes(), 100, "Handshake").unwrap(), 100);
    let err = check_frame_length(101u32.to_be_bytes(), 100, "Handshake").unwrap_err();
    match err {
        EndpointError::HandshakeFailed { reason } => {
            assert_eq!(reason, "Handshake message too large: 101 bytes")
        },
        _ => panic!("expected HandshakeFailed"),
    }
}

#[test]
fn peer_hello_checks() {
    let hello = HandshakeMessage::Hello {
        endpoint_id: None,
        serializer: "json".to_string(),
        protocols: vec![ProtocolCapability::new("A", vec![1], ProtocolDirection::CallOnly)],
        bdrpc_version: "0.2.0".to_string(),
    };
    let caps = check_peer_hello(hello, "json").unwrap();
    assert_eq!(caps.len(), 1);

    let other = HandshakeMessage::Hello {
        endpoint_id: None,
        serializer: "bincode".to_string(),
        protocols: vec![],
        bdrpc_version: "0.2.0".to_string(),
    };
    match check_peer_hello(other, "json") {
        Err(EndpointError::SerializerMismatch { ours, theirs }) => {
            assert_eq!(ours, "json");
            assert_eq!(theirs, "bincode");
        },
        _ => panic!("expected SerializerMismatch"),
    }

    match check_peer_hello(HandshakeMessage::Error { message: "no".to_string() }, "json") {
        Err(EndpointError::HandshakeFailed { reason }) => assert_eq!(reason, "no"),
        _ => panic!("expected HandshakeFailed"),
    }
}

#[test]
fn usable_direction_from_capabilities() {
    assert_eq!(usable_direction(true, true), Some(ProtocolDirection::Bidirectional));
    assert_eq!(usable_direction(true, false), Some(ProtocolDirection::CallOnly));
    assert_eq!(usable_direction(false, true), Some(ProtocolDirection::RespondOnly));
    assert_eq!(usable_direction(false, false), None);
}

#[test]
fn reconnectable_failures() {
    let err = EndpointError::Transport(TransportError::Closed);
    assert!(matches!(reconnectable_failure(&err, "h:1"), Some(TransportError::Closed)));
    let err = EndpointError::Io(std::io::Error::new(std::io::ErrorKind::Other, "refused"));
    match reconnectable_failure(&err, "h:1") {
        Some(TransportError::ConnectionFailed { address, reason }) => {
            assert_eq!(address, "h:1");
            assert_eq!(reason, "refused");
        },
        _ => panic!("expected ConnectionFailed"),
    }
    let err = EndpointError::HandshakeFailed { reason: "x".to_string() };
    assert!(reconnectable_failure(&err, "h:1").is_none());
}

#[test]
fn negotiator_allow_list() {
    let mut negotiator = DefaultChannelNegotiator::new();
    negotiator.allow_protocol("TestProtocol");
    assert!(negotiator.is_protocol_allowed("TestProtocol"));
    assert!(!negotiator.is_protocol_allowed("Other"));
    let accepted = negotiator.on_channel_create_request(
        ChannelId::from(1),
        "TestProtocol",
        1,
        ProtocolDirection::Bidirectional,
        &HashMap::new(),
    );
    assert_eq!(accepted, Ok(true));
    let refused = negotiator.on_channel_create_request(
        ChannelId::from(2),
        "Other",
        1,
        ProtocolDirection::Bidirectional,
        &HashMap::new(),
    );
    assert_eq!(refused, Err("Protocol 'Other' not allowed".to_string()));
    negotiator.disallow_protocol("TestProtocol");
    assert!(!negotiator.is_protocol_allowed("TestProtocol"));
    assert!(negotiator.allowed_protocols().is_empty());
}

#[test]
fn system_messages_are_answered() {
    let mut negotiator = DefaultChannelNegotiator::new();
    negotiator.allow_protocol("Chat");
    let request = SystemProtocol::ChannelCreateRequest {
        channel_id: ChannelId::from(9),
        protocol_name: "Chat".to_string(),
        protocol_version: 1,
        direction: ProtocolDirection::Bidirectional,
        buffer_size: None,
        metadata: HashMap::new(),
    };
    match handle_system_message(request, &negotiator) {
        SystemAction::Reply(SystemProtocol::ChannelCreateResponse { channel_id, success, error }) => {
            assert_eq!(channel_id, ChannelId::from(9));
            assert!(success);
            assert_eq!(error, None);
        },
        _ => panic!("expected a create response"),
    }
    match handle_system_message(SystemProtocol::Ping { timestamp: 77 }, &negotiator) {
        SystemAction::Reply(SystemProtocol::Pong { timestamp }) => assert_eq!(timestamp, 77),
        _ => panic!("expected a pong"),
    }
}

#[test]
fn system_responses_complete_requests() {
    let negotiator = DefaultChannelNegotiator::new();
    let refused = SystemProtocol::ChannelCreateResponse {
        channel_id: ChannelId::from(4),
        success: false,
        error: None,
    };
    match handle_system_message(refused, &negotiator) {
        SystemAction::CompleteRequest { channel_id, result } => {
            assert_eq!(channel_id, ChannelId::from(4));
            assert_eq!(result, Err("Unknown error".to_string()));
        },
        _ => panic!("expected a completed request"),
    }
    let request = SystemProtocol::ChannelCreateRequest {
        channel_id: ChannelId::from(5),
        protocol_name: "Unlisted".to_string(),
        protocol_version: 1,
        direction: ProtocolDirection::CallOnly,
        buffer_size: Some(8),
        metadata: HashMap::new(),
    };
    match handle_system_message(request, &negotiator) {
        SystemAction::Reply(SystemProtocol::ChannelCreateResponse { channel_id, success, error }) => {
            assert_eq!(channel_id, ChannelId::from(5));
            assert!(!success);
            assert_eq!(error, Some("Protocol 'Unlisted' not allowed".to_string()));
        },
        _ => panic!("expected a create response"),
    }
    let close = SystemProtocol::ChannelCloseNotification {
        channel_id: ChannelId::from(6),
        reason: "done".to_string(),
    };
    match handle_system_message(close, &negotiator) {
        SystemAction::CloseChannel { channel_id, ack: SystemProtocol::ChannelCloseAck { channel_id: acked } } => {
            assert_eq!(channel_id, ChannelId::from(6));
            assert_eq!(acked, ChannelId::from(6));
        },
        _ => panic!("expected a close"),
    }
    assert!(matches!(
        handle_system_message(SystemProtocol::Pong { timestamp: 1 }, &negotiator),
        SystemAction::Nothing
    ));
}

#[test]
fn endpoint_error_sources() {
    let err = EndpointError::Transport(TransportError::Closed);
    assert!(matches!(err.source(), Some(EndpointErrorSource::Transport(TransportError::Closed))));
    let err = EndpointError::Channel(bdrpc::ChannelError::Closed { channel_id: ChannelId::from(2) });
    assert!(matches!(err.source(), Some(EndpointErrorSource::Channel(_))));
    let err: EndpointError = std::io::Error::new(std::io::ErrorKind::Other, "x").into();
    assert!(matches!(err.source(), Some(EndpointErrorSource::Io(_))));
    let err = EndpointError::HandshakeFailed { reason: "r".to_string() };
    assert!(err.source().is_none());
}

#[test]
fn system_channel_cannot_be_requested() {
    match check_channel_request(ChannelId::from(0)) {
        Err(EndpointError::InvalidConfiguration { reason }) => {
            assert_eq!(reason, "Cannot request system channel (ID 0)")
        },
        _ => panic!("expected InvalidConfiguration"),
    }
    assert!(check_channel_request(ChannelId::from(7)).is_ok());
}

#[test]
fn pending_channel_request_is_refused() {
    assert!(check_request_not_pending(false, "conn-1", "Chat", ChannelId::from(3)).is_ok());
    let err = check_request_not_pending(true, "conn-1", "Chat", ChannelId::from(3)).unwrap_err();
    match &err {
        EndpointError::ChannelCreationFailed { connection_id, protocol, channel_id, reason } => {
            assert_eq!(connection_id, "conn-1");
            assert_eq!(protocol, "Chat");
            assert_eq!(*channel_id, ChannelId::from(3));
            assert_eq!(reason, "Channel request already pending for this ID");
        },
        _ => panic!("expected ChannelCreationFailed"),
    }
    assert_eq!(
        err.to_string(),
        "failed to create channel Channel(3) for protocol 'Chat' on connection 'conn-1': Channel request already pending for this ID"
    );
}

#[test]
fn channel_request_outcomes() {
    let id = ChannelId::from(9);
    assert!(channel_request_outcome("c", "P", id, Some(Some(Ok(()))), 5).is_ok());
    match channel_request_outcome("c", "P", id, Some(Some(Err("busy".to_string()))), 5) {
        Err(e @ EndpointError::ChannelRequestRejected { .. }) => {
            assert_eq!(e.to_string(), "request for channel Channel(9) for protocol 'P' on connection 'c' rejected: busy")
        },
        _ => panic!("expected ChannelRequestRejected"),
    }
    match channel_request_outcome("c", "P", id, Some(None), 5) {
        Err(EndpointError::ChannelCreationFailed { reason, .. }) => {
            assert_eq!(reason, "Channel creation response channel closed unexpectedly")
        },
        _ => panic!("expected ChannelCreationFailed"),
    }
    match channel_request_outcome("c", "P", id, None, 5) {
        Err(e @ EndpointError::ChannelRequestTimeout { timeout_secs: 5, .. }) => {
            assert_eq!(e.to_string(), "request for channel Channel(9) for protocol 'P' on connection 'c' timed out after 5s")
        },
        _ => panic!("expected ChannelRequestTimeout"),
    }
}

#[test]
fn channel_direction_on_a_connection() {
    let negotiated = negotiate_protocols(
        &vec![
            ProtocolCapability::new("A", vec![1], ProtocolDirection::CallOnly),
            ProtocolCapability::new("B", vec![1], ProtocolDirection::Bidirectional),
        ],
        &vec![
            ProtocolCapability::new("A", vec![1], ProtocolDirection::RespondOnly),
            ProtocolCapability::new("B", vec![1], ProtocolDirection::Bidirectional),
        ],
    );
    let mut unusable = NegotiatedProtocol::new("C", 1);
    unusable.we_can_call = false;
    let mut all = negotiated;
    all.push(unusable);
    let conn = Connection::new("conn-2".to_string(), all);
    assert_eq!(channel_direction_for(&conn, "A", ChannelId::from(4)).unwrap(), ProtocolDirection::CallOnly);
    assert_eq!(
        channel_direction_for(&conn, "B", ChannelId::from(4)).unwrap(),
        ProtocolDirection::Bidirectional
    );
    match channel_direction_for(&conn, "Z", ChannelId::from(4)) {
        Err(EndpointError::ProtocolNotRegistered { protocol }) => assert_eq!(protocol, "Z"),
        _ => panic!("expected ProtocolNotRegistered"),
    }
    match channel_direction_for(&conn, "C", ChannelId::from(4)) {
        Err(EndpointError::ChannelCreationFailed { connection_id, reason, channel_id, .. }) => {
            assert_eq!(connection_id, "conn-2");
            assert_eq!(channel_id, ChannelId::from(4));
            assert_eq!(reason, "Protocol has no usable direction (neither call nor respond capability)");
        },
        _ => panic!("expected ChannelCreationFailed"),
    }
}

#[test]
fn listening_needs_a_responder() {
    let mut registry = ProtocolRegistry::new();
    registry.register_caller("A", 1).unwrap();
    match registry.check_can_listen() {
        Err(EndpointError::InvalidConfiguration { reason }) => assert_eq!(
            reason,
            "No responder protocols registered. Use register_responder() or register_bidirectional() before listening."
        ),
        _ => panic!("expected InvalidConfiguration"),
    }
    registry.register_responder("B", 1).unwrap();
    assert!(registry.check_can_listen().is_ok());
    let mut bi = ProtocolRegistry::new();
    bi.register_bidirectional("C", 2).unwrap();
    assert!(bi.check_can_listen().is_ok());
}

#[test]
fn manual_listener_only_accepts_channels() {
    assert!(check_manual_listener(true).is_ok());
    match check_manual_listener(false) {
        Err(EndpointError::InvalidConfiguration { reason }) => {
            assert!(reason.starts_with("accept_channels() can only be called on listeners created with listen_manual()"))
        },
        _ => panic!("expected InvalidConfiguration"),
    }
}

#[test]
fn connect_steps() {
    let mut never = NoReconnect::new();
    assert!(matches!(connect_step(&mut never, 0, None, "h:1"), ConnectStep::Connected));
    assert_eq!(never.metrics().successful_reconnections, 1);
    let lost = EndpointError::Transport(TransportError::connection_lost("reset"));
    assert!(matches!(connect_step(&mut never, 0, Some(&lost), "h:1"), ConnectStep::GiveUp));
    assert_eq!(never.metrics().failed_reconnections, 1);

    let mut breaker = CircuitBreaker::default();
    match connect_step(&mut breaker, 2, Some(&lost), "h:1") {
        ConnectStep::Retry { delay, next_attempt } => {
            assert_eq!(next_attempt, 3);
            assert_eq!(delay, Duration::from_millis(100));
        },
        _ => panic!("expected a retry"),
    }
    let handshake = EndpointError::HandshakeFailed { reason: "no".to_string() };
    assert!(matches!(connect_step(&mut breaker, 0, Some(&handshake), "h:1"), ConnectStep::GiveUp));
    assert_eq!(breaker.metrics().failed_reconnections, 1);
}

#[test]
fn config_reconnection_strategy() {
    let config = EndpointConfig::new();
    assert!(config.reconnection_strategy.is_none());
    let config = config.with_reconnection_strategy(Box::new(NoReconnect::new()));
    assert_eq!(config.reconnection_strategy.as_ref().unwrap().name(), "NoReconnect");
    assert_eq!(config.channel_buffer_size, 100);
}

#[test]
fn listener_builders_add_bare_transports() {
    let builder = EndpointBuilder::<(), ()>::new(())
        .with_tcp_listener("127.0.0.1:0")
        .with_tls_listener("127.0.0.1:1");
    let (_, _, _, transports) = builder.into_parts();
    assert_eq!(transports.len(), 2);
    assert_eq!(transports[0].name, "tcp-listener-0");
    assert_eq!(transports[1].name, "tls-listener-1");
    assert!(transports[0].config.metadata.is_empty());
    assert!(transports[1].config.metadata.is_empty());
    assert!(transports[0].is_listener && transports[1].is_listener);
}

#[test]
fn retry_steps_follow_the_answer() {
    match retry_step(4, true, Duration::from_millis(250)) {
        ConnectStep::Retry { delay, next_attempt } => {
            assert_eq!(delay, Duration::from_millis(250));
            assert_eq!(next_attempt, 5);
        },
        _ => panic!("expected a retry"),
    }
    match retry_step(u32::MAX, true, Duration::ZERO) {
        ConnectStep::Retry { next_attempt, .. } => assert_eq!(next_attempt, u32::MAX),
        _ => panic!("expected a retry"),
    }
    assert!(matches!(retry_step(4, false, Duration::from_millis(250)), ConnectStep::GiveUp));
}

#[test]
fn unretryable_failure_leaves_the_strategy_alone() {
    let mut breaker = CircuitBreaker::default();
    let handshake = EndpointError::SerializerMismatch { ours: "a".to_string(), theirs: "b".to_string() };
    assert!(matches!(connect_step(&mut breaker, 0, Some(&handshake), "h:1"), ConnectStep::GiveUp));
    let metrics = breaker.metrics();
    assert_eq!(metrics.failed_reconnections, 0);
    assert_eq!(metrics.successful_reconnections, 0);
    assert_eq!(metrics.total_attempts, 0);
}
