use simple_tor::error::DecodeError;
use simple_tor::error::SessionError;
use simple_tor::ProxyError;

#[test]
fn test_decode_error_descriptions() {
    assert_eq!(
        DecodeError::ProtocolVersionMismatch.describe(),
        "Invalid SOCKS version"
    );
    assert_eq!(
        DecodeError::UnsupportedCommand.describe(),
        "Unsupported SOCKS4 command"
    );
    assert_eq!(DecodeError::UserIdTooLong.describe(), "USERID too long");
}

#[test]
fn test_session_error_from_decode() {
    assert_eq!(
        SessionError::from_decode(DecodeError::ProtocolVersionMismatch),
        SessionError::ProtocolVersionMismatch
    );
    assert_eq!(
        SessionError::from_decode(DecodeError::UnsupportedCommand),
        SessionError::UnsupportedCommand
    );
    assert_eq!(
        SessionError::from_decode(DecodeError::UserIdTooLong),
        SessionError::UserIdTooLong
    );
}

#[test]
fn test_proxy_error_from_io() {
    let closed = ProxyError::from_io(true, String::from("any message"));
    assert!(matches!(closed, ProxyError::ConnectionClosed));
    assert_eq!(closed.describe(), "Connection closed");

    let network = ProxyError::from_io(false, String::from("connection reset"));
    match &network {
        ProxyError::NetworkError(m) => assert_eq!(m, "connection reset"),
        other => panic!("expected a network error, got {:?}", other),
    }
    assert_eq!(network.describe(), "Network error: connection reset");
}

#[test]
fn test_proxy_error_configuration_description() {
    let error = ProxyError::ConfigurationError(String::from("no listen address"));
    assert_eq!(error.describe(), "Configuration error: no listen address");
}
