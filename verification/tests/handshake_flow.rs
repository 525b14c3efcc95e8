use secure_transport::{
    classify_handshake_status, frame, peer_trust_allowed, ConnectionType, HandshakeDisposition,
    HandshakeError, ProtocolSide, ReadEvent, ScriptedStream, SessionState,
    SslClientCertificateState, SslContext, WriteEvent,
};

const HELLO_FRAME: [u8; 5] = [0, 0, 0, 1, 22];

fn response(flags: u8, name: &[u8]) -> ReadEvent {
    let mut payload = vec![flags];
    payload.extend_from_slice(name);
    ReadEvent::Data(frame(&payload))
}

#[test]
fn handshake_completes_against_a_ready_peer() {
    let ctx = SslContext::new(ProtocolSide::Client, ConnectionType::Stream).unwrap();
    let stream = ScriptedStream::new(vec![response(0, b"")], vec![]);
    let s = ctx.handshake(stream).unwrap();
    assert!(matches!(s.context().state().unwrap(), SessionState::Connected));
    assert_eq!(s.get_ref().written, HELLO_FRAME.to_vec());
    assert_eq!(s.context().negotiated_cipher().unwrap(), 0x000A);
}

#[test]
fn handshake_fails_on_peer_name_mismatch() {
    let mut ctx = SslContext::new(ProtocolSide::Client, ConnectionType::Stream).unwrap();
    ctx.set_peer_domain_name("foobar.com").unwrap();
    let stream = ScriptedStream::new(vec![response(0, b"google.com")], vec![]);
    match ctx.handshake(stream) {
        Err(HandshakeError::Failure(e)) => assert_eq!(e.code(), -9843),
        _ => panic!("expected failure"),
    }
}

#[test]
fn handshake_succeeds_on_matching_peer_name() {
    let mut ctx = SslContext::new(ProtocolSide::Client, ConnectionType::Stream).unwrap();
    ctx.set_peer_domain_name("example.com").unwrap();
    let stream = ScriptedStream::new(vec![response(0, b"example.com")], vec![]);
    let s = ctx.handshake(stream).unwrap();
    assert!(matches!(s.context().state().unwrap(), SessionState::Connected));
}

#[test]
fn blocked_stream_keeps_reporting_would_block() {
    let ctx = SslContext::new(ProtocolSide::Client, ConnectionType::Stream).unwrap();
    let stream = ScriptedStream::new(
        vec![
            ReadEvent::Error(secure_transport::StreamErrorKind::WouldBlock),
            ReadEvent::Error(secure_transport::StreamErrorKind::WouldBlock),
            ReadEvent::Error(secure_transport::StreamErrorKind::WouldBlock),
            response(0, b""),
        ],
        vec![],
    );
    let mut mid = match ctx.handshake(stream) {
        Err(HandshakeError::WouldBlock(m)) => m,
        _ => panic!("expected a would-block pause"),
    };
    for _ in 0..2 {
        assert!(matches!(mid.context().state().unwrap(), SessionState::Handshake));
        mid = match mid.handshake() {
            Err(HandshakeError::WouldBlock(m)) => m,
            _ => panic!("expected the pause to repeat"),
        };
    }
    let s = mid.handshake().unwrap();
    assert!(matches!(s.context().state().unwrap(), SessionState::Connected));
}

#[test]
fn blocked_write_pauses_before_any_read() {
    let ctx = SslContext::new(ProtocolSide::Client, ConnectionType::Stream).unwrap();
    let stream = ScriptedStream::new(
        vec![response(0, b"")],
        vec![
            WriteEvent::Error(secure_transport::StreamErrorKind::WouldBlock),
            WriteEvent::Accept(64),
        ],
    );
    let mid = match ctx.handshake(stream) {
        Err(HandshakeError::WouldBlock(m)) => m,
        _ => panic!("expected a would-block pause"),
    };
    let s = mid.handshake().unwrap();
    assert_eq!(s.get_ref().written, HELLO_FRAME.to_vec());
}

#[test]
fn server_auth_pause_exposes_peer_trust_then_resumes() {
    let mut ctx = SslContext::new(ProtocolSide::Client, ConnectionType::Stream).unwrap();
    ctx.set_break_on_server_auth(true).unwrap();
    ctx.set_peer_domain_name("example.com").unwrap();
    let stream = ScriptedStream::new(vec![response(0, b"example.com")], vec![]);
    let mid = match ctx.handshake(stream) {
        Err(HandshakeError::ServerAuthCompleted(m)) => m,
        _ => panic!("expected a server-auth pause"),
    };
    let trust = mid.context().peer_trust().unwrap();
    assert_eq!(trust.peer_name, Some(b"example.com".to_vec()));
    let s = mid.handshake().unwrap();
    assert!(matches!(s.context().state().unwrap(), SessionState::Connected));
}

#[test]
fn client_cert_request_pause_then_resumes() {
    let mut ctx = SslContext::new(ProtocolSide::Client, ConnectionType::Stream).unwrap();
    ctx.set_break_on_cert_requested(true).unwrap();
    let stream = ScriptedStream::new(vec![response(1, b"")], vec![]);
    let mid = match ctx.handshake(stream) {
        Err(HandshakeError::ClientCertRequested(m)) => m,
        _ => panic!("expected a client-certificate pause"),
    };
    assert!(matches!(
        mid.context().client_certificate_state().unwrap(),
        SslClientCertificateState::Requested
    ));
    let s = mid.handshake().unwrap();
    assert!(matches!(s.context().state().unwrap(), SessionState::Connected));
}

#[test]
fn abandoning_a_paused_handshake_returns_the_stream() {
    let ctx = SslContext::new(ProtocolSide::Client, ConnectionType::Stream).unwrap();
    let stream = ScriptedStream::new(
        vec![ReadEvent::Error(secure_transport::StreamErrorKind::WouldBlock)],
        vec![],
    );
    let mid = match ctx.handshake(stream) {
        Err(HandshakeError::WouldBlock(m)) => m,
        _ => panic!("expected a would-block pause"),
    };
    let recovered = mid.abandon();
    assert_eq!(recovered.written, HELLO_FRAME.to_vec());
}

#[test]
fn dropping_a_paused_handshake_releases_it() {
    let ctx = SslContext::new(ProtocolSide::Client, ConnectionType::Stream).unwrap();
    let stream = ScriptedStream::new(
        vec![ReadEvent::Error(secure_transport::StreamErrorKind::WouldBlock)],
        vec![],
    );
    let outcome = ctx.handshake(stream);
    assert!(matches!(outcome, Err(HandshakeError::WouldBlock(_))));
    drop(outcome);
}

#[test]
fn handshake_fails_on_immediate_eof() {
    let ctx = SslContext::new(ProtocolSide::Client, ConnectionType::Stream).unwrap();
    let stream = ScriptedStream::new(vec![ReadEvent::Eof], vec![]);
    match ctx.handshake(stream) {
        Err(HandshakeError::Failure(e)) => assert_eq!(e.code(), -9816),
        _ => panic!("expected failure"),
    }
}

#[test]
fn handshake_rejects_oversized_record() {
    let ctx = SslContext::new(ProtocolSide::Client, ConnectionType::Stream).unwrap();
    let stream = ScriptedStream::new(vec![ReadEvent::Data(vec![0xFF, 0, 0, 0])], vec![]);
    match ctx.handshake(stream) {
        Err(HandshakeError::Failure(e)) => assert_eq!(e.code(), -9847),
        _ => panic!("expected failure"),
    }
}

#[test]
fn setters_are_rejected_mid_handshake() {
    let ctx = SslContext::new(ProtocolSide::Client, ConnectionType::Stream).unwrap();
    let stream = ScriptedStream::new(
        vec![ReadEvent::Error(secure_transport::StreamErrorKind::WouldBlock)],
        vec![],
    );
    let mut mid = match ctx.handshake(stream) {
        Err(HandshakeError::WouldBlock(m)) => m,
        _ => panic!("expected a would-block pause"),
    };
    let err = mid.context_mut().set_peer_id(b"x").unwrap_err();
    assert_eq!(err.code(), -909);
}

#[test]
fn handshake_status_narrowing_table() {
    assert_eq!(classify_handshake_status(0), HandshakeDisposition::Complete);
    assert_eq!(classify_handshake_status(-9841), HandshakeDisposition::PeerAuthPause);
    assert_eq!(classify_handshake_status(-9842), HandshakeDisposition::ClientCertPause);
    assert_eq!(classify_handshake_status(-9803), HandshakeDisposition::WouldBlockPause);
    assert_eq!(classify_handshake_status(-9816), HandshakeDisposition::Fatal);
    assert_eq!(classify_handshake_status(-36), HandshakeDisposition::Fatal);
}

#[test]
fn peer_trust_gate_follows_session_state() {
    assert!(!peer_trust_allowed(0));
    assert!(peer_trust_allowed(1));
    assert!(peer_trust_allowed(2));
}
