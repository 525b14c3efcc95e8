//! The session-level enumerations and their raw engine encodings.
//!
//! The engine reports its session state, the negotiated protocol version and
//! the client-certificate processing state as raw integer codes. A code
//! outside the documented set is a contract breach by the engine; decoding
//! therefore requires a documented code, and the callers maintain that as an
//! invariant.

use vstd::prelude::*;

verus! {

/// Specifies a side of a TLS session.
#[derive(Debug, Copy, Clone, PartialEq, Eq, Structural)]
pub enum ProtocolSide {
    /// The server side of the session.
    Server,
    /// The client side of the session.
    Client,
}

/// Specifies the type of TLS session.
#[derive(Debug, Copy, Clone, PartialEq, Eq, Structural)]
pub enum ConnectionType {
    /// A traditional TLS stream.
    Stream,
    /// A DTLS session.
    Datagram,
}

/// Raw code for an idle session.
pub const SESSION_STATE_IDLE: i32 = 0;
/// Raw code for a session in the handshake process.
pub const SESSION_STATE_HANDSHAKE: i32 = 1;
/// Raw code for a connected session.
pub const SESSION_STATE_CONNECTED: i32 = 2;
/// Raw code for a terminated session.
pub const SESSION_STATE_CLOSED: i32 = 3;
/// Raw code for a session aborted due to an error.
pub const SESSION_STATE_ABORTED: i32 = 4;

/// Specifies the state of a TLS session.
#[derive(Debug, Copy, Clone, PartialEq, Eq, Structural)]
pub enum SessionState {
    /// The session has not yet started.
    Idle,
    /// The session is in the handshake process.
    Handshake,
    /// The session is connected.
    Connected,
    /// The session has been terminated.
    Closed,
    /// The session has been aborted due to an error.
    Aborted,
}

/// Whether a raw code lies in the engine's documented session-state set.
pub open spec fn session_state_raw_valid(raw: i32) -> bool {
    SESSION_STATE_IDLE <= raw <= SESSION_STATE_ABORTED
}

/// The session state that a documented raw code denotes.
pub open spec fn session_state_of(raw: i32) -> SessionState {
    if raw == SESSION_STATE_IDLE {
        SessionState::Idle
    } else if raw == SESSION_STATE_HANDSHAKE {
        SessionState::Handshake
    } else if raw == SESSION_STATE_CONNECTED {
        SessionState::Connected
    } else if raw == SESSION_STATE_CLOSED {
        SessionState::Closed
    } else {
        SessionState::Aborted
    }
}

impl SessionState {
    /// Decodes the engine's raw session-state code. An undocumented code is a
    /// contract breach by the engine and is excluded up front rather than
    /// decoded to anything.
    pub fn from_raw(raw: i32) -> (s: SessionState)
        requires
            session_state_raw_valid(raw),
        ensures
            s == session_state_of(raw),
    {
        if raw == SESSION_STATE_IDLE {
            SessionState::Idle
        } else if raw == SESSION_STATE_HANDSHAKE {
            SessionState::Handshake
        } else if raw == SESSION_STATE_CONNECTED {
            SessionState::Connected
        } else if raw == SESSION_STATE_CLOSED {
            SessionState::Closed
        } else {
            SessionState::Aborted
        }
    }
}

/// Specifies a server's requirement for client certificates.
#[derive(Debug, Copy, Clone, PartialEq, Eq, Structural)]
pub enum SslAuthenticate {
    /// Do not request a client certificate.
    Never,
    /// Require a client certificate.
    Always,
    /// Request but do not require a client certificate.
    Try,
}

/// Raw code: a client certificate has not been requested or sent.
pub const CLIENT_CERT_STATE_NONE: i32 = 0;
/// Raw code: a client certificate has been requested but not received.
pub const CLIENT_CERT_STATE_REQUESTED: i32 = 1;
/// Raw code: a client certificate has been received and validated.
pub const CLIENT_CERT_STATE_SENT: i32 = 2;
/// Raw code: a client certificate has been received but failed to validate.
pub const CLIENT_CERT_STATE_REJECTED: i32 = 3;

/// Specifies the state of client certificate processing.
#[derive(Debug, Copy, Clone, PartialEq, Eq, Structural)]
pub enum SslClientCertificateState {
    /// A client certificate has not been requested or sent.
    NoneRequested,
    /// A client certificate has been requested but not received.
    Requested,
    /// A client certificate has been received and successfully validated.
    Sent,
    /// A client certificate has been received but has failed to validate.
    Rejected,
}

/// Whether a raw code lies in the engine's documented client-certificate
/// state set.
pub open spec fn client_cert_state_raw_valid(raw: i32) -> bool {
    CLIENT_CERT_STATE_NONE <= raw <= CLIENT_CERT_STATE_REJECTED
}

/// The client-certificate state that a documented raw code denotes.
pub open spec fn client_cert_state_of(raw: i32) -> SslClientCertificateState {
    if raw == CLIENT_CERT_STATE_NONE {
        SslClientCertificateState::NoneRequested
    } else if raw == CLIENT_CERT_STATE_REQUESTED {
        SslClientCertificateState::Requested
    } else if raw == CLIENT_CERT_STATE_SENT {
        SslClientCertificateState::Sent
    } else {
        SslClientCertificateState::Rejected
    }
}

impl SslClientCertificateState {
    /// Decodes the engine's raw client-certificate state code.
    pub fn from_raw(raw: i32) -> (s: SslClientCertificateState)
        requires
            client_cert_state_raw_valid(raw),
        ensures
            s == client_cert_state_of(raw),
    {
        if raw == CLIENT_CERT_STATE_NONE {
            SslClientCertificateState::NoneRequested
        } else if raw == CLIENT_CERT_STATE_REQUESTED {
            SslClientCertificateState::Requested
        } else if raw == CLIENT_CERT_STATE_SENT {
            SslClientCertificateState::Sent
        } else {
            SslClientCertificateState::Rejected
        }
    }
}

/// Raw protocol-version code: unknown or not yet negotiated.
pub const PROTOCOL_UNKNOWN: i32 = 0;
/// Raw protocol-version code for SSL 2.
pub const PROTOCOL_SSL2: i32 = 1;
/// Raw protocol-version code for SSL 3.
pub const PROTOCOL_SSL3: i32 = 2;
/// Raw protocol-version code for SSL 3 only.
pub const PROTOCOL_SSL3_ONLY: i32 = 3;
/// Raw protocol-version code for TLS 1.0.
pub const PROTOCOL_TLS1: i32 = 4;
/// Raw protocol-version code for TLS 1.0 only.
pub const PROTOCOL_TLS1_ONLY: i32 = 5;
/// Raw protocol-version code for "all protocols".
pub const PROTOCOL_ALL: i32 = 6;
/// Raw protocol-version code for TLS 1.1.
pub const PROTOCOL_TLS11: i32 = 7;
/// Raw protocol-version code for TLS 1.2.
pub const PROTOCOL_TLS12: i32 = 8;
/// Raw protocol-version code for DTLS 1.0.
pub const PROTOCOL_DTLS1: i32 = 9;

/// Specifies protocol versions.
#[derive(Debug, Copy, Clone, PartialEq, Eq, Structural)]
pub enum SslProtocol {
    /// The protocol is unknown or not yet negotiated.
    Unknown,
    /// SSL 3.
    Ssl3,
    /// TLS 1.0.
    Tls1,
    /// TLS 1.1.
    Tls11,
    /// TLS 1.2.
    Tls12,
    /// DTLS 1.0.
    Dtls1,
    /// SSL 2.
    Ssl2,
    /// SSL 3 only.
    Ssl3Only,
    /// TLS 1.0 only.
    Tls1Only,
    /// Every protocol the engine supports.
    All,
}

/// Whether a raw code lies in the engine's documented protocol-version set.
pub open spec fn protocol_raw_valid(raw: i32) -> bool {
    PROTOCOL_UNKNOWN <= raw <= PROTOCOL_DTLS1
}

/// The protocol version that a documented raw code denotes.
pub open spec fn protocol_of(raw: i32) -> SslProtocol {
    if raw == PROTOCOL_UNKNOWN {
        SslProtocol::Unknown
    } else if raw == PROTOCOL_SSL2 {
        SslProtocol::Ssl2
    } else if raw == PROTOCOL_SSL3 {
        SslProtocol::Ssl3
    } else if raw == PROTOCOL_SSL3_ONLY {
        SslProtocol::Ssl3Only
    } else if raw == PROTOCOL_TLS1 {
        SslProtocol::Tls1
    } else if raw == PROTOCOL_TLS1_ONLY {
        SslProtocol::Tls1Only
    } else if raw == PROTOCOL_ALL {
        SslProtocol::All
    } else if raw == PROTOCOL_TLS11 {
        SslProtocol::Tls11
    } else if raw == PROTOCOL_TLS12 {
        SslProtocol::Tls12
    } else {
        SslProtocol::Dtls1
    }
}

/// The raw code that denotes a protocol version.
pub open spec fn raw_of_protocol(p: SslProtocol) -> i32 {
    match p {
        SslProtocol::Unknown => PROTOCOL_UNKNOWN,
        SslProtocol::Ssl2 => PROTOCOL_SSL2,
        SslProtocol::Ssl3 => PROTOCOL_SSL3,
        SslProtocol::Ssl3Only => PROTOCOL_SSL3_ONLY,
        SslProtocol::Tls1 => PROTOCOL_TLS1,
        SslProtocol::Tls1Only => PROTOCOL_TLS1_ONLY,
        SslProtocol::All => PROTOCOL_ALL,
        SslProtocol::Tls11 => PROTOCOL_TLS11,
        SslProtocol::Tls12 => PROTOCOL_TLS12,
        SslProtocol::Dtls1 => PROTOCOL_DTLS1,
    }
}

impl SslProtocol {
    /// Decodes the engine's raw protocol-version code.
    pub fn from_raw(raw: i32) -> (p: SslProtocol)
        requires
            protocol_raw_valid(raw),
        ensures
            p == protocol_of(raw),
    {
        if raw == PROTOCOL_UNKNOWN {
            SslProtocol::Unknown
        } else if raw == PROTOCOL_SSL2 {
            SslProtocol::Ssl2
        } else if raw == PROTOCOL_SSL3 {
            SslProtocol::Ssl3
        } else if raw == PROTOCOL_SSL3_ONLY {
            SslProtocol::Ssl3Only
        } else if raw == PROTOCOL_TLS1 {
            SslProtocol::Tls1
        } else if raw == PROTOCOL_TLS1_ONLY {
            SslProtocol::Tls1Only
        } else if raw == PROTOCOL_ALL {
            SslProtocol::All
        } else if raw == PROTOCOL_TLS11 {
            SslProtocol::Tls11
        } else if raw == PROTOCOL_TLS12 {
            SslProtocol::Tls12
        } else {
            SslProtocol::Dtls1
        }
    }

    /// Encodes this protocol version as the engine's raw code.
    pub fn to_raw(&self) -> (raw: i32)
        ensures
            raw == raw_of_protocol(*self),
            protocol_raw_valid(raw),
    {
        match self {
            SslProtocol::Unknown => PROTOCOL_UNKNOWN,
            SslProtocol::Ssl2 => PROTOCOL_SSL2,
            SslProtocol::Ssl3 => PROTOCOL_SSL3,
            SslProtocol::Ssl3Only => PROTOCOL_SSL3_ONLY,
            SslProtocol::Tls1 => PROTOCOL_TLS1,
            SslProtocol::Tls1Only => PROTOCOL_TLS1_ONLY,
            SslProtocol::All => PROTOCOL_ALL,
            SslProtocol::Tls11 => PROTOCOL_TLS11,
            SslProtocol::Tls12 => PROTOCOL_TLS12,
            SslProtocol::Dtls1 => PROTOCOL_DTLS1,
        }
    }
}

/// Decoding a protocol version's raw code returns the version it encodes:
/// the two raw translations are mutually inverse.
pub proof fn lemma_protocol_raw_round_trip(p: SslProtocol)
    ensures
        protocol_of(raw_of_protocol(p)) == p,
        protocol_raw_valid(raw_of_protocol(p)),
{
}

} // verus!
