use secure_transport::{
    ConnectionType, ProtocolSide, SecCertificate, SecIdentity, SessionState, SslAuthenticate,
    SslClientCertificateState, SslContext, SslProtocol,
};

#[test]
fn cipher_configuration() {
    let mut ctx = SslContext::new(ProtocolSide::Server, ConnectionType::Stream).unwrap();
    let ciphers = ctx.enabled_ciphers().unwrap();
    let ciphers = ciphers
        .iter()
        .enumerate()
        .filter_map(|(i, c)| if i % 2 == 0 { Some(*c) } else { None })
        .collect::<Vec<_>>();
    ctx.set_enabled_ciphers(&ciphers).unwrap();
    assert_eq!(ciphers, ctx.enabled_ciphers().unwrap());
}

#[test]
fn idle_context_peer_trust() {
    let ctx = SslContext::new(ProtocolSide::Server, ConnectionType::Stream).unwrap();
    assert!(ctx.peer_trust().is_err());
}

#[test]
fn peer_id() {
    let mut ctx = SslContext::new(ProtocolSide::Server, ConnectionType::Stream).unwrap();
    assert!(ctx.peer_id().unwrap().is_none());
    ctx.set_peer_id(b"foobar").unwrap();
    assert_eq!(ctx.peer_id().unwrap(), Some(&b"foobar"[..]));
}

#[test]
fn peer_domain_name() {
    let mut ctx = SslContext::new(ProtocolSide::Client, ConnectionType::Stream).unwrap();
    assert_eq!("", ctx.peer_domain_name().unwrap());
    ctx.set_peer_domain_name("foobar.com").unwrap();
    assert_eq!("foobar.com", ctx.peer_domain_name().unwrap());
}

#[test]
fn peer_domain_name_empty_round_trip() {
    let mut ctx = SslContext::new(ProtocolSide::Client, ConnectionType::Stream).unwrap();
    ctx.set_peer_domain_name("").unwrap();
    assert_eq!("", ctx.peer_domain_name().unwrap());
}

#[test]
fn enabled_ciphers_default_is_supported_table() {
    let ctx = SslContext::new(ProtocolSide::Client, ConnectionType::Stream).unwrap();
    let supported = ctx.supported_ciphers().unwrap();
    assert_eq!(supported, vec![0x000A, 0x002F, 0x0035, 0xC02F, 0xC030]);
    assert_eq!(supported, ctx.enabled_ciphers().unwrap());
}

#[test]
fn empty_cipher_list_is_rejected() {
    let mut ctx = SslContext::new(ProtocolSide::Server, ConnectionType::Stream).unwrap();
    let before = ctx.enabled_ciphers().unwrap();
    let err = ctx.set_enabled_ciphers(&[]).unwrap_err();
    assert_eq!(err.code(), -50);
    assert_eq!(before, ctx.enabled_ciphers().unwrap());
}

#[test]
fn idle_state_and_defaults() {
    let ctx = SslContext::new(ProtocolSide::Client, ConnectionType::Datagram).unwrap();
    assert!(matches!(ctx.state().unwrap(), SessionState::Idle));
    assert!(matches!(
        ctx.client_certificate_state().unwrap(),
        SslClientCertificateState::NoneRequested
    ));
    assert!(matches!(
        ctx.negotiated_protocol_version().unwrap(),
        SslProtocol::Unknown
    ));
    assert_eq!(ctx.negotiated_cipher().unwrap_err().code(), -909);
    assert_eq!(ctx.buffered_read_size().unwrap(), 0);
}

#[test]
fn protocol_version_bounds_round_trip() {
    let mut ctx = SslContext::new(ProtocolSide::Client, ConnectionType::Stream).unwrap();
    assert!(matches!(ctx.protocol_version_min().unwrap(), SslProtocol::Unknown));
    assert!(matches!(ctx.protocol_version_max().unwrap(), SslProtocol::Unknown));
    ctx.set_protocol_version_min(SslProtocol::Tls1).unwrap();
    ctx.set_protocol_version_max(SslProtocol::Tls12).unwrap();
    assert!(matches!(ctx.protocol_version_min().unwrap(), SslProtocol::Tls1));
    assert!(matches!(ctx.protocol_version_max().unwrap(), SslProtocol::Tls12));
}

#[test]
fn session_options_round_trip() {
    let mut ctx = SslContext::new(ProtocolSide::Client, ConnectionType::Stream).unwrap();
    assert!(!ctx.break_on_server_auth().unwrap());
    assert!(!ctx.break_on_cert_requested().unwrap());
    assert!(!ctx.break_on_client_auth().unwrap());
    assert!(!ctx.false_start().unwrap());
    assert!(!ctx.send_one_byte_record().unwrap());
    ctx.set_break_on_server_auth(true).unwrap();
    ctx.set_break_on_cert_requested(true).unwrap();
    ctx.set_break_on_client_auth(true).unwrap();
    ctx.set_false_start(true).unwrap();
    ctx.set_send_one_byte_record(true).unwrap();
    assert!(ctx.break_on_server_auth().unwrap());
    assert!(ctx.break_on_cert_requested().unwrap());
    assert!(ctx.break_on_client_auth().unwrap());
    assert!(ctx.false_start().unwrap());
    assert!(ctx.send_one_byte_record().unwrap());
}

#[test]
fn client_side_authenticate_is_stored() {
    let mut ctx = SslContext::new(ProtocolSide::Server, ConnectionType::Stream).unwrap();
    ctx.set_client_side_authenticate(SslAuthenticate::Always).unwrap();
    ctx.set_client_side_authenticate(SslAuthenticate::Try).unwrap();
}

#[test]
fn certificate_is_stored() {
    let mut ctx = SslContext::new(ProtocolSide::Server, ConnectionType::Stream).unwrap();
    let identity = SecIdentity { der: vec![1, 2, 3] };
    let chain = vec![SecCertificate { der: vec![4, 5] }, SecCertificate { der: vec![6] }];
    ctx.set_certificate(&identity, &chain).unwrap();
}

#[test]
fn protocol_raw_codes_round_trip() {
    assert!(matches!(SslProtocol::from_raw(8), SslProtocol::Tls12));
    assert!(matches!(SslProtocol::from_raw(9), SslProtocol::Dtls1));
    assert_eq!(SslProtocol::Tls12.to_raw(), 8);
    assert_eq!(SslProtocol::from_raw(SslProtocol::Ssl3Only.to_raw()).to_raw(), 3);
}

#[test]
fn session_state_raw_codes_decode() {
    assert!(matches!(SessionState::from_raw(0), SessionState::Idle));
    assert!(matches!(SessionState::from_raw(2), SessionState::Connected));
    assert!(matches!(SessionState::from_raw(4), SessionState::Aborted));
}
