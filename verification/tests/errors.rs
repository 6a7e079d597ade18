use bdrpc::error::ErrorSource;
use bdrpc::{BdrpcError, ChannelError, ChannelId, TransportError};
use std::io;

fn application_error() -> BdrpcError {
    let app_error = io::Error::new(io::ErrorKind::Other, "test");
    BdrpcError::Application(app_error.to_string())
}

#[test]
fn test_is_transport_error() {
    let error = BdrpcError::Transport(TransportError::Closed);
    assert!(error.is_transport_error());
    assert!(!error.is_channel_error());
    assert!(!error.is_application_error());
}

#[test]
fn test_is_channel_error() {
    let error = BdrpcError::Channel(ChannelError::Closed { channel_id: ChannelId::from(1) });
    assert!(!error.is_transport_error());
    assert!(error.is_channel_error());
    assert!(!error.is_application_error());
}

#[test]
fn test_is_application_error() {
    let error = application_error();
    assert!(!error.is_transport_error());
    assert!(!error.is_channel_error());
    assert!(error.is_application_error());
}

#[test]
fn test_is_recoverable() {
    let timeout =
        BdrpcError::Transport(TransportError::Timeout { duration: std::time::Duration::from_secs(30) });
    assert!(timeout.is_recoverable());

    let closed = BdrpcError::Transport(TransportError::Closed);
    assert!(!closed.is_recoverable());

    let full =
        BdrpcError::Channel(ChannelError::Full { channel_id: ChannelId::from(1), buffer_size: 100 });
    assert!(full.is_recoverable());

    let channel_closed = BdrpcError::Channel(ChannelError::Closed { channel_id: ChannelId::from(1) });
    assert!(!channel_closed.is_recoverable());

    let error = application_error();
    assert!(!error.is_recoverable());
}

#[test]
fn test_should_close_transport() {
    let error = BdrpcError::Transport(TransportError::ConnectionLost { reason: "peer closed".to_string() });
    assert!(error.should_close_transport());

    let error = BdrpcError::Channel(ChannelError::Closed { channel_id: ChannelId::from(1) });
    assert!(!error.should_close_transport());

    let error = application_error();
    assert!(!error.should_close_transport());
}

#[test]
fn test_should_close_channel() {
    let error = BdrpcError::Transport(TransportError::Closed);
    assert!(error.should_close_channel());

    let error = BdrpcError::Channel(ChannelError::Closed { channel_id: ChannelId::from(1) });
    assert!(error.should_close_channel());

    let error =
        BdrpcError::Channel(ChannelError::Full { channel_id: ChannelId::from(1), buffer_size: 100 });
    assert!(!error.should_close_channel());

    let error = application_error();
    assert!(!error.should_close_channel());
}

#[test]
fn test_from_transport_error() {
    let transport_err = TransportError::Closed;
    let bdrpc_err: BdrpcError = transport_err.into();
    assert!(bdrpc_err.is_transport_error());
}

#[test]
fn test_from_channel_error() {
    let channel_err = ChannelError::Closed { channel_id: ChannelId::from(1) };
    let bdrpc_err: BdrpcError = channel_err.into();
    assert!(bdrpc_err.is_channel_error());
}

#[test]
fn error_test_display() {
    let error = BdrpcError::Transport(TransportError::Closed);
    assert!(error.to_string().contains("transport error"));

    let error = BdrpcError::Channel(ChannelError::Closed { channel_id: ChannelId::from(1) });
    assert!(error.to_string().contains("channel error"));

    let error = application_error();
    assert!(error.to_string().contains("application error"));
}

#[test]
fn test_error_source() {
    let error = BdrpcError::Transport(TransportError::Closed);
    assert!(error.source().is_some());

    let error = BdrpcError::Channel(ChannelError::Closed { channel_id: ChannelId::from(1) });
    assert!(error.source().is_some());

    let error = application_error();
    assert!(error.source().is_some());
}

#[test]
fn error_source_is_the_inner_error() {
    let error = BdrpcError::Channel(ChannelError::Closed { channel_id: ChannelId::from(8) });
    match error.source() {
        Some(ErrorSource::Channel(e)) => {
            assert_eq!(*e, ChannelError::Closed { channel_id: ChannelId::from(8) })
        },
        _ => panic!("expected the channel error"),
    }
    let error = application_error();
    match error.source() {
        Some(ErrorSource::Application(m)) => assert_eq!(m, "test"),
        _ => panic!("expected the application error"),
    }
}

#[test]
fn transport_error_classes() {
    assert!(TransportError::connection_failed("h:1").is_recoverable());
    assert!(TransportError::connection_lost("x").is_recoverable());
    assert!(TransportError::connection_lost("x").should_close_transport());
    assert!(!TransportError::Closed.is_recoverable());
    assert!(TransportError::Closed.should_close_transport());
    assert!(!TransportError::invalid_configuration("bad").is_recoverable());
    assert!(!TransportError::invalid_configuration("bad").should_close_transport());
    let io = TransportError::Io { message: "broken pipe".to_string() };
    assert!(io.should_close_transport());
    assert!(!io.is_recoverable());
}

#[test]
fn transport_error_texts() {
    assert_eq!(TransportError::Closed.to_string(), "transport closed");
    assert_eq!(TransportError::connection_lost("reset").to_string(), "connection lost: reset");
    assert_eq!(
        TransportError::ConnectionFailed { address: "h:1".to_string(), reason: "refused".to_string() }
            .to_string(),
        "connection to 'h:1' failed: refused"
    );
    assert_eq!(
        BdrpcError::Transport(TransportError::Closed).to_string(),
        "transport error: transport closed"
    );
}
