use simple_tor::addr::Ipv4Addr;
use simple_tor::addr::SocketAddr;
use simple_tor::addr::SocketAddrV4;
use simple_tor::config::ProxyMode;
use simple_tor::error::SessionError;
use simple_tor::session::step;
use simple_tor::session::SessionAction;
use simple_tor::session::SessionEvent;
use simple_tor::session::SessionState;
use simple_tor::socks4::DecodeOutcome;
use simple_tor::socks4::Socks4Request;
use simple_tor::socks4::Socks4Response;

fn dest() -> SocketAddr {
    SocketAddr::V4(SocketAddrV4::new(Ipv4Addr::new(66, 102, 7, 99), 80))
}

fn connect_request() -> Socks4Request {
    let bytes = vec![
        0x04, 0x01, 0x00, 0x50, 0x42, 0x66, 0x07, 0x63, 0x46, 0x72, 0x65, 0x64, 0x00,
    ];
    match Socks4Request::read_from(&bytes) {
        DecodeOutcome::Complete { request, .. } => request,
        other => panic!("expected a complete frame, got {:?}", other),
    }
}

fn bind_request() -> Socks4Request {
    let bytes = vec![0x04, 0x02, 0x00, 0x50, 0x42, 0x66, 0x07, 0x63, 0x00];
    match Socks4Request::read_from(&bytes) {
        DecodeOutcome::Complete { request, .. } => request,
        other => panic!("expected a complete frame, got {:?}", other),
    }
}

#[test]
fn test_direct_mode_skips_handshake() {
    let mode = ProxyMode::Direct(dest());
    let (state, action) = step(mode, SessionState::Start, SessionEvent::Started);
    assert_eq!(state, SessionState::Connecting { dest: dest() });
    assert_eq!(action, SessionAction::Dial { dest: dest() });
}

#[test]
fn test_socks4_mode_awaits_request() {
    let (state, action) = step(ProxyMode::Socks4, SessionState::Start, SessionEvent::Started);
    assert_eq!(state, SessionState::Handshaking);
    assert_eq!(action, SessionAction::AwaitRequest);
}

#[test]
fn test_connect_request_dials_its_destination() {
    let event = SessionEvent::RequestDecoded(Ok(connect_request()));
    let (state, action) = step(ProxyMode::Socks4, SessionState::Handshaking, event);
    assert_eq!(state, SessionState::Connecting { dest: dest() });
    assert_eq!(action, SessionAction::Dial { dest: dest() });
}

#[test]
fn test_bind_request_is_rejected() {
    let event = SessionEvent::RequestDecoded(Ok(bind_request()));
    let (state, action) = step(ProxyMode::Socks4, SessionState::Handshaking, event);
    assert_eq!(
        state,
        SessionState::SendingRejection {
            error: SessionError::UnsupportedCommand
        }
    );
    assert_eq!(
        action,
        SessionAction::SendRejection {
            response: Socks4Response::failure()
        }
    );
}

#[test]
fn test_decode_failure_closes_without_response() {
    let event = SessionEvent::RequestDecoded(Err(SessionError::ProtocolVersionMismatch));
    let (state, action) = step(ProxyMode::Socks4, SessionState::Handshaking, event);
    assert_eq!(
        state,
        SessionState::Failed {
            error: SessionError::ProtocolVersionMismatch
        }
    );
    assert_eq!(action, SessionAction::Shutdown);
}

#[test]
fn test_connect_failure_sends_rejection_then_terminates() {
    // A failed dial in negotiated mode produces the rejection frame, and the
    // session then terminates without a second dial.
    let connecting = SessionState::Connecting { dest: dest() };
    let (state, action) = step(
        ProxyMode::Socks4,
        connecting,
        SessionEvent::ConnectFinished { ok: false },
    );
    assert_eq!(
        state,
        SessionState::SendingRejection {
            error: SessionError::ConnectFailure
        }
    );
    assert_eq!(
        action,
        SessionAction::SendRejection {
            response: Socks4Response::failure()
        }
    );

    let (state, action) = step(ProxyMode::Socks4, state, SessionEvent::ResponseSent { ok: true });
    assert_eq!(
        state,
        SessionState::Failed {
            error: SessionError::ConnectFailure
        }
    );
    assert_eq!(action, SessionAction::Shutdown);
}

#[test]
fn test_rejection_write_failure_is_swallowed() {
    let rejecting = SessionState::SendingRejection {
        error: SessionError::ConnectFailure,
    };
    let (state, action) = step(
        ProxyMode::Socks4,
        rejecting,
        SessionEvent::ResponseSent { ok: false },
    );
    assert_eq!(
        state,
        SessionState::Failed {
            error: SessionError::ConnectFailure
        }
    );
    assert_eq!(action, SessionAction::Shutdown);
}

#[test]
fn test_grant_sent_after_connect_succeeds() {
    let connecting = SessionState::Connecting { dest: dest() };
    let (state, action) = step(
        ProxyMode::Socks4,
        connecting,
        SessionEvent::ConnectFinished { ok: true },
    );
    assert_eq!(state, SessionState::SendingGrant);
    let expected = Socks4Response::success(SocketAddrV4::new(Ipv4Addr::new(66, 102, 7, 99), 80));
    assert_eq!(action, SessionAction::SendGrant { response: expected });

    let (state, action) = step(ProxyMode::Socks4, state, SessionEvent::ResponseSent { ok: true });
    assert_eq!(state, SessionState::Forwarding);
    assert_eq!(action, SessionAction::StartRelay);
}

#[test]
fn test_grant_write_failure_fails_session() {
    let (state, action) = step(
        ProxyMode::Socks4,
        SessionState::SendingGrant,
        SessionEvent::ResponseSent { ok: false },
    );
    assert_eq!(
        state,
        SessionState::Failed {
            error: SessionError::IoError
        }
    );
    assert_eq!(action, SessionAction::Shutdown);
}

#[test]
fn test_direct_mode_connect_success_relays_without_response() {
    let mode = ProxyMode::Direct(dest());
    let connecting = SessionState::Connecting { dest: dest() };
    let (state, action) = step(mode, connecting, SessionEvent::ConnectFinished { ok: true });
    assert_eq!(state, SessionState::Forwarding);
    assert_eq!(action, SessionAction::StartRelay);
}

#[test]
fn test_relay_finish_closes_session() {
    // Clean end-of-stream on either direction, or a direction fault, both
    // complete the session and shut both sockets down.
    for clean_eof in [true, false] {
        let (state, action) = step(
            ProxyMode::Socks4,
            SessionState::Forwarding,
            SessionEvent::RelayFinished { clean_eof },
        );
        assert_eq!(state, SessionState::Closed);
        assert_eq!(action, SessionAction::Shutdown);
    }
}
