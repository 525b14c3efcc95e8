//! The session handle: engine configuration and session state.
//!
//! The handle owns one instance of engine-session state for one TLS session
//! attempt. The configuration surface is a set of narrow setter/getter pairs
//! with no cross-field validation beyond what is obviously invalid (an empty
//! cipher list); deeper validation surfaces as a failure from the handshake
//! step. Every setter is valid only while the session is idle and reports
//! the invalid-state error afterwards.

use vstd::prelude::*;

use crate::handshake::{record_progress_wf, HandshakePhase, RecordProgress};
use crate::session::{
    client_cert_state_of, client_cert_state_raw_valid, protocol_of, protocol_raw_valid,
    raw_of_protocol, session_state_of, session_state_raw_valid, ConnectionType, ProtocolSide,
    SessionState, SslAuthenticate, SslClientCertificateState, SslProtocol, CLIENT_CERT_STATE_NONE,
    PROTOCOL_UNKNOWN, SESSION_STATE_IDLE,
};
use crate::status::{Error, ERR_SEC_BAD_REQ, ERR_SEC_PARAM};
use vstd::slice::slice_to_vec;

verus! {

/// A certificate, described by its encoded form.
#[derive(Debug)]
pub struct SecCertificate {
    /// The certificate's encoded bytes.
    pub der: Vec<u8>,
}

impl Clone for SecCertificate {
    fn clone(&self) -> (c: SecCertificate)
        ensures
            c.der@ == self.der@,
    {
        SecCertificate { der: slice_to_vec(self.der.as_slice()) }
    }
}

/// An identity: a leaf certificate together with its private key, described
/// by the leaf's encoded form.
#[derive(Debug)]
pub struct SecIdentity {
    /// The leaf certificate's encoded bytes.
    pub der: Vec<u8>,
}

impl Clone for SecIdentity {
    fn clone(&self) -> (c: SecIdentity)
        ensures
            c.der@ == self.der@,
    {
        SecIdentity { der: slice_to_vec(self.der.as_slice()) }
    }
}

/// A trust object describing the peer's certificate chain, for out-of-band
/// evaluation during a server-auth pause.
#[derive(Debug)]
pub struct SecTrust {
    /// The domain name the peer presented, once a handshake step has
    /// received it.
    pub peer_name: Option<Vec<u8>>,
}

/// A Secure Transport-style SSL/TLS context object: the owning handle for
/// one session's engine state.
#[derive(Debug)]
pub struct SslContext {
    /// Which side of the session this context drives.
    pub side: ProtocolSide,
    /// Whether the session runs over a stream or datagram transport.
    pub conn_type: ConnectionType,
    /// The configured peer domain name; empty when unset.
    pub peer_domain_name: String,
    /// The configured peer resumption identifier; `None` before any set.
    pub peer_id: Option<Vec<u8>>,
    /// The installed identity, if any.
    pub certificate: Option<SecIdentity>,
    /// The extra certificates of the installed chain.
    pub cert_chain: Vec<SecCertificate>,
    /// The cipher suites eligible for negotiation, by raw suite number.
    pub enabled: Vec<u32>,
    /// The minimum allowed protocol version, as a raw code.
    pub protocol_min_raw: i32,
    /// The maximum allowed protocol version, as a raw code.
    pub protocol_max_raw: i32,
    /// The negotiated protocol version, as a raw code; unknown until
    /// connected.
    pub negotiated_protocol_raw: i32,
    /// The negotiated cipher suite; `None` until connected.
    pub negotiated_cipher: Option<u32>,
    /// The server's requirement for client certificates.
    pub client_auth: SslAuthenticate,
    /// The client-certificate processing state, as a raw code.
    pub client_cert_state_raw: i32,
    /// Pause the handshake instead of validating the peer automatically.
    pub break_on_server_auth: bool,
    /// Pause the handshake when the peer requests a certificate.
    pub break_on_cert_requested: bool,
    /// Pause the handshake instead of validating a client's certificate.
    pub break_on_client_auth: bool,
    /// Perform TLS false start when an appropriate suite is negotiated.
    pub false_start: bool,
    /// Split records 1/n-1 to mitigate chosen-plaintext attacks on CBC.
    pub send_one_byte_record: bool,
    /// The session state, as a raw code.
    pub state_raw: i32,
    /// Where the handshake stands.
    pub phase: HandshakePhase,
    /// The domain name the peer presented during the handshake.
    pub presented_peer: Option<Vec<u8>>,
    /// Whether the peer requested a client certificate.
    pub cert_requested: bool,
    /// Whether the server-auth pause has already been reported.
    pub auth_reported: bool,
    /// Whether the client-certificate pause has already been reported.
    pub cert_reported: bool,
    /// Plaintext received but not yet delivered to the caller.
    pub plaintext: Vec<u8>,
    /// How much of `plaintext` has been delivered.
    pub plaintext_pos: usize,
    /// An inbound record partially read by an interrupted read.
    pub rd_prog: Option<RecordProgress>,
    /// An outbound record partially accepted by an interrupted write.
    pub wr_pending: Option<PendingWrite>,
}

/// Outbound records that the stream has accepted only in part.
#[derive(Debug)]
pub struct PendingWrite {
    /// The framed records.
    pub buf: Vec<u8>,
    /// How many of their bytes the stream has accepted.
    pub sent: usize,
    /// The payload bytes the retained records carry, reported when they
    /// complete.
    pub payload_len: usize,
}

/// The bytes of the configured peer domain name, in its UTF-8 encoding; the
/// form the engine model compares against the peer's presented name.
pub open spec fn domain_name_bytes(c: &SslContext) -> Seq<u8> {
    vstd::utf8::encode_utf8(c.peer_domain_name@)
}

/// The peer-name rule of a completed or pause-completed handshake: either no
/// peer domain name is configured, or the peer presented exactly the
/// configured name.
pub open spec fn name_check_ok(c: &SslContext) -> bool {
    ||| domain_name_bytes(c).len() == 0
    ||| (c.presented_peer matches Some(p) && p@ == domain_name_bytes(c))
}

/// The parts of well-formedness that do not concern the handshake phase:
/// every raw code lies in its documented set, the enabled-cipher list is
/// never empty, and partial-progress records are consistent.
pub open spec fn config_wf(c: &SslContext) -> bool {
    &&& session_state_raw_valid(c.state_raw)
    &&& protocol_raw_valid(c.protocol_min_raw)
    &&& protocol_raw_valid(c.protocol_max_raw)
    &&& protocol_raw_valid(c.negotiated_protocol_raw)
    &&& client_cert_state_raw_valid(c.client_cert_state_raw)
    &&& c.enabled@.len() > 0
    &&& c.plaintext_pos <= c.plaintext@.len()
    &&& (c.rd_prog matches Some(p) ==> record_progress_wf(&p))
    &&& (c.wr_pending matches Some(p) ==> p.sent < p.buf@.len())
}

impl SslContext {
    /// Well-formedness: the configuration is consistent, the phase is
    /// consistent, an idle session has not started its handshake, and a
    /// session whose handshake has passed validation satisfies the peer-name
    /// rule.
    pub open spec fn wf(&self) -> bool {
        &&& config_wf(self)
        &&& self.phase.wf()
        &&& self.state_raw == SESSION_STATE_IDLE ==> self.phase is SendHello
        &&& (self.phase is Accept || self.phase is Done) ==> {
            &&& name_check_ok(self)
            &&& self.presented_peer is Some
        }
    }

    /// Creates a new `SslContext` for the specified side and type of SSL
    /// connection. Allocation of fresh engine state cannot fail in the
    /// model.
    pub fn new(side: ProtocolSide, type_: ConnectionType) -> (r: Result<SslContext, Error>)
        ensures
            r matches Ok(c) && is_fresh_context(&c, side, type_),
            r matches Ok(c) && c.wf(),
    {
        let c = SslContext {
            side,
            conn_type: type_,
            peer_domain_name: String::new(),
            peer_id: None,
            certificate: None,
            cert_chain: Vec::new(),
            enabled: default_cipher_table(),
            protocol_min_raw: PROTOCOL_UNKNOWN,
            protocol_max_raw: PROTOCOL_UNKNOWN,
            negotiated_protocol_raw: PROTOCOL_UNKNOWN,
            negotiated_cipher: None,
            client_auth: SslAuthenticate::Never,
            client_cert_state_raw: CLIENT_CERT_STATE_NONE,
            break_on_server_auth: false,
            break_on_cert_requested: false,
            break_on_client_auth: false,
            false_start: false,
            send_one_byte_record: false,
            state_raw: SESSION_STATE_IDLE,
            phase: HandshakePhase::SendHello { sent: 0 },
            presented_peer: None,
            cert_requested: false,
            auth_reported: false,
            cert_reported: false,
            plaintext: Vec::new(),
            plaintext_pos: 0,
            rd_prog: None,
            wr_pending: None,
        };
        Ok(c)
    }
}

/// What a freshly created context looks like: idle, unconfigured, with the
/// default cipher table enabled.
pub open spec fn is_fresh_context(c: &SslContext, side: ProtocolSide, type_: ConnectionType) -> bool {
    &&& c.side == side
    &&& c.conn_type == type_
    &&& c.peer_domain_name@ == Seq::<char>::empty()
    &&& c.peer_id is None
    &&& c.certificate is None
    &&& c.cert_chain@.len() == 0
    &&& c.enabled@ == supported_cipher_table()
    &&& c.protocol_min_raw == PROTOCOL_UNKNOWN
    &&& c.protocol_max_raw == PROTOCOL_UNKNOWN
    &&& c.negotiated_protocol_raw == PROTOCOL_UNKNOWN
    &&& c.negotiated_cipher is None
    &&& c.client_auth == SslAuthenticate::Never
    &&& c.client_cert_state_raw == CLIENT_CERT_STATE_NONE
    &&& !c.break_on_server_auth
    &&& !c.break_on_cert_requested
    &&& !c.break_on_client_auth
    &&& !c.false_start
    &&& !c.send_one_byte_record
    &&& c.state_raw == SESSION_STATE_IDLE
    &&& c.phase == (HandshakePhase::SendHello { sent: 0 })
    &&& c.presented_peer is None
    &&& !c.cert_requested
    &&& !c.auth_reported
    &&& !c.cert_reported
    &&& c.plaintext@.len() == 0
    &&& c.plaintext_pos == 0
    &&& c.rd_prog is None
    &&& c.wr_pending is None
}

/// The cipher suites the modelled engine supports, by raw suite number.
pub open spec fn supported_cipher_table() -> Seq<u32> {
    seq![0x000Au32, 0x002Fu32, 0x0035u32, 0xC02Fu32, 0xC030u32]
}

/// Builds the default cipher table.
fn default_cipher_table() -> (v: Vec<u32>)
    ensures
        v@ == supported_cipher_table(),
{
    let mut v: Vec<u32> = Vec::new();
    v.push(0x000A);
    v.push(0x002F);
    v.push(0x0035);
    v.push(0xC02F);
    v.push(0xC030);
    proof {
        assert(v@ =~= supported_cipher_table());
    }
    v
}

impl SslContext {
    /// Sets the fully qualified domain name of the peer, used to validate
    /// the name the peer presents during the handshake. Valid only while the
    /// session is idle.
    pub fn set_peer_domain_name(&mut self, peer_name: &str) -> (r: Result<(), Error>)
        requires
            old(self).wf(),
        ensures
            final(self).wf(),
            old(self).state_raw == SESSION_STATE_IDLE ==> (r matches Ok(v) && final(self).peer_domain_name@ == peer_name@ && set_peer_domain_name_post(
                old(self),
                final(self),
                peer_name@,
            )),
            old(self).state_raw != SESSION_STATE_IDLE ==> (r matches Err(e) && e.code
                == ERR_SEC_BAD_REQ && *final(self) == *old(self)),
    {
        if self.state_raw != SESSION_STATE_IDLE {
            return Err(Error::new(ERR_SEC_BAD_REQ));
        }
        self.peer_domain_name = peer_name.to_owned();
        Ok(())
    }

    /// Returns the peer domain name set by `set_peer_domain_name`; empty
    /// while unset.
    pub fn peer_domain_name(&self) -> (r: Result<String, Error>)
        ensures
            r matches Ok(s) && s@ == self.peer_domain_name@,
    {
        Ok(self.peer_domain_name.clone())
    }

    /// Installs the certificate chain used by this side of the session: the
    /// identity is the leaf certificate with its private key, the rest of
    /// the chain follows. Valid only while the session is idle.
    pub fn set_certificate(&mut self, identity: &SecIdentity, certs: &[SecCertificate]) -> (r:
        Result<(), Error>)
        requires
            old(self).wf(),
        ensures
            final(self).wf(),
            old(self).state_raw == SESSION_STATE_IDLE ==> (r matches Ok(v) && (final(self).certificate matches Some(id) && id.der@ == identity.der@) && final(self).cert_chain@.len() == certs@.len() && (forall|i: int|
                0 <= i < certs@.len() ==> final(self).cert_chain@[i].der@ == certs@[i].der@)
                && *final(self) == (SslContext {
                certificate: final(self).certificate,
                cert_chain: final(self).cert_chain,
                ..*old(self)
            })),
            old(self).state_raw != SESSION_STATE_IDLE ==> (r matches Err(e) && e.code
                == ERR_SEC_BAD_REQ && *final(self) == *old(self)),
    {
        if self.state_raw != SESSION_STATE_IDLE {
            return Err(Error::new(ERR_SEC_BAD_REQ));
        }
        self.certificate = Some(identity.clone());
        let mut chain: Vec<SecCertificate> = Vec::new();
        let mut i: usize = 0;
        while i < certs.len()
            invariant
                i <= certs@.len(),
                chain@.len() == i,
                forall|j: int| 0 <= j < i ==> chain@[j].der@ == certs@[j].der@,
            decreases certs@.len() - i,
        {
            chain.push(certs[i].clone());
            i = i + 1;
        }
        self.cert_chain = chain;
        Ok(())
    }

    /// Sets the peer ID of this session: an opaque byte sequence used to
    /// resume a previously terminated session. Valid only while the session
    /// is idle.
    pub fn set_peer_id(&mut self, peer_id: &[u8]) -> (r: Result<(), Error>)
        requires
            old(self).wf(),
        ensures
            final(self).wf(),
            old(self).state_raw == SESSION_STATE_IDLE ==> (r matches Ok(v)
                && set_peer_id_post(old(self), final(self), peer_id@)),
            old(self).state_raw != SESSION_STATE_IDLE ==> (r matches Err(e) && e.code
                == ERR_SEC_BAD_REQ && *final(self) == *old(self)),
    {
        if self.state_raw != SESSION_STATE_IDLE {
            return Err(Error::new(ERR_SEC_BAD_REQ));
        }
        self.peer_id = Some(slice_to_vec(peer_id));
        Ok(())
    }

    /// Returns the peer ID of this session, or `None` before any set call.
    pub fn peer_id(&self) -> (r: Result<Option<&[u8]>, Error>)
        ensures
            r matches Ok(o) && peer_id_view_of(o) == peer_id_view(self),
    {
        match &self.peer_id {
            Some(v) => Ok(Some(v.as_slice())),
            None => Ok(None),
        }
    }

    /// Returns the list of cipher suites the engine supports.
    pub fn supported_ciphers(&self) -> (r: Result<Vec<u32>, Error>)
        ensures
            r matches Ok(v) && v@ == supported_cipher_table(),
    {
        Ok(default_cipher_table())
    }

    /// Returns the list of cipher suites eligible to be used for
    /// negotiation.
    pub fn enabled_ciphers(&self) -> (r: Result<Vec<u32>, Error>)
        ensures
            r matches Ok(v) && v@ == self.enabled@,
    {
        Ok(slice_to_vec(self.enabled.as_slice()))
    }

    /// Sets the list of cipher suites eligible to be used for negotiation.
    /// An empty list is obviously invalid and rejected; anything further is
    /// the engine's concern. Valid only while the session is idle.
    pub fn set_enabled_ciphers(&mut self, ciphers: &[u32]) -> (r: Result<(), Error>)
        requires
            old(self).wf(),
        ensures
            final(self).wf(),
            old(self).state_raw == SESSION_STATE_IDLE && ciphers@.len() > 0 ==> (r matches Ok(v)
                && set_enabled_ciphers_post(old(self), final(self), ciphers@)),
            old(self).state_raw == SESSION_STATE_IDLE && ciphers@.len() == 0 ==> (r matches Err(e)
                && e.code == ERR_SEC_PARAM && *final(self) == *old(self)),
            old(self).state_raw != SESSION_STATE_IDLE ==> (r matches Err(e) && e.code
                == ERR_SEC_BAD_REQ && *final(self) == *old(self)),
    {
        if self.state_raw != SESSION_STATE_IDLE {
            return Err(Error::new(ERR_SEC_BAD_REQ));
        }
        if ciphers.len() == 0 {
            return Err(Error::new(ERR_SEC_PARAM));
        }
        self.enabled = slice_to_vec(ciphers);
        Ok(())
    }

    /// Returns the cipher suite negotiated by the session; an error while
    /// none has been negotiated.
    pub fn negotiated_cipher(&self) -> (r: Result<u32, Error>)
        ensures
            self.negotiated_cipher matches Some(c) ==> (r matches Ok(rc) && rc == c),
            self.negotiated_cipher is None ==> (r matches Err(e) && e.code == ERR_SEC_BAD_REQ),
    {
        match self.negotiated_cipher {
            Some(c) => Ok(c),
            None => Err(Error::new(ERR_SEC_BAD_REQ)),
        }
    }

    /// Sets the requirements for client certificates. Should only be called
    /// on server-side sessions; valid only while the session is idle.
    pub fn set_client_side_authenticate(&mut self, auth: SslAuthenticate) -> (r: Result<(), Error>)
        requires
            old(self).wf(),
        ensures
            final(self).wf(),
            old(self).state_raw == SESSION_STATE_IDLE ==> (r matches Ok(v) && final(self).client_auth == auth && *final(self) == (SslContext {
                client_auth: auth,
                ..*old(self)
            })),
            old(self).state_raw != SESSION_STATE_IDLE ==> (r matches Err(e) && e.code
                == ERR_SEC_BAD_REQ && *final(self) == *old(self)),
    {
        if self.state_raw != SESSION_STATE_IDLE {
            return Err(Error::new(ERR_SEC_BAD_REQ));
        }
        self.client_auth = auth;
        Ok(())
    }

    /// Returns the state of client certificate processing.
    pub fn client_certificate_state(&self) -> (r: Result<SslClientCertificateState, Error>)
        requires
            self.wf(),
        ensures
            r matches Ok(s) && s == client_cert_state_of(self.client_cert_state_raw),
    {
        Ok(SslClientCertificateState::from_raw(self.client_cert_state_raw))
    }

    /// Returns the trust object describing the peer's certificate chain.
    /// Requesting it before any handshake step has executed fails with the
    /// idle-session error, and never otherwise.
    pub fn peer_trust(&self) -> (r: Result<SecTrust, Error>)
        ensures
            self.state_raw == SESSION_STATE_IDLE <==> (r matches Err(e) && e.code == ERR_SEC_BAD_REQ),
            self.state_raw != SESSION_STATE_IDLE ==> (r matches Ok(t) && peer_name_view(&t) == presented_peer_view(self)),
    {
        if self.state_raw == SESSION_STATE_IDLE {
            return Err(Error::new(ERR_SEC_BAD_REQ));
        }
        match &self.presented_peer {
            Some(v) => Ok(SecTrust { peer_name: Some(slice_to_vec(v.as_slice())) }),
            None => Ok(SecTrust { peer_name: None }),
        }
    }

    /// Returns the state of the session.
    pub fn state(&self) -> (r: Result<SessionState, Error>)
        requires
            self.wf(),
        ensures
            r matches Ok(s) && s == session_state_of(self.state_raw),
    {
        Ok(SessionState::from_raw(self.state_raw))
    }

    /// Returns the protocol version being used by the session.
    pub fn negotiated_protocol_version(&self) -> (r: Result<SslProtocol, Error>)
        requires
            self.wf(),
        ensures
            r matches Ok(p) && p == protocol_of(self.negotiated_protocol_raw),
    {
        Ok(SslProtocol::from_raw(self.negotiated_protocol_raw))
    }

    /// Returns the maximum protocol version allowed by the session.
    pub fn protocol_version_max(&self) -> (r: Result<SslProtocol, Error>)
        requires
            self.wf(),
        ensures
            r matches Ok(p) && p == protocol_of(self.protocol_max_raw),
    {
        Ok(SslProtocol::from_raw(self.protocol_max_raw))
    }

    /// Sets the maximum protocol version allowed by the session. Valid only
    /// while the session is idle.
    pub fn set_protocol_version_max(&mut self, max_version: SslProtocol) -> (r: Result<(), Error>)
        requires
            old(self).wf(),
        ensures
            final(self).wf(),
            old(self).state_raw == SESSION_STATE_IDLE ==> (r matches Ok(v) && final(self).protocol_max_raw == raw_of_protocol(max_version) && *final(self) == (SslContext {
                protocol_max_raw: raw_of_protocol(max_version),
                ..*old(self)
            })),
            old(self).state_raw != SESSION_STATE_IDLE ==> (r matches Err(e) && e.code
                == ERR_SEC_BAD_REQ && *final(self) == *old(self)),
    {
        if self.state_raw != SESSION_STATE_IDLE {
            return Err(Error::new(ERR_SEC_BAD_REQ));
        }
        self.protocol_max_raw = max_version.to_raw();
        Ok(())
    }

    /// Returns the minimum protocol version allowed by the session.
    pub fn protocol_version_min(&self) -> (r: Result<SslProtocol, Error>)
        requires
            self.wf(),
        ensures
            r matches Ok(p) && p == protocol_of(self.protocol_min_raw),
    {
        Ok(SslProtocol::from_raw(self.protocol_min_raw))
    }

    /// Sets the minimum protocol version allowed by the session. Valid only
    /// while the session is idle.
    pub fn set_protocol_version_min(&mut self, min_version: SslProtocol) -> (r: Result<(), Error>)
        requires
            old(self).wf(),
        ensures
            final(self).wf(),
            old(self).state_raw == SESSION_STATE_IDLE ==> (r matches Ok(v) && final(self).protocol_min_raw == raw_of_protocol(min_version) && *final(self) == (SslContext {
                protocol_min_raw: raw_of_protocol(min_version),
                ..*old(self)
            })),
            old(self).state_raw != SESSION_STATE_IDLE ==> (r matches Err(e) && e.code
                == ERR_SEC_BAD_REQ && *final(self) == *old(self)),
    {
        if self.state_raw != SESSION_STATE_IDLE {
            return Err(Error::new(ERR_SEC_BAD_REQ));
        }
        self.protocol_min_raw = min_version.to_raw();
        Ok(())
    }

    /// Returns the number of bytes that can be read without triggering a
    /// read of the underlying stream.
    pub fn buffered_read_size(&self) -> (r: Result<usize, Error>)
        requires
            self.wf(),
        ensures
            r matches Ok(n) && n == self.plaintext@.len() - self.plaintext_pos,
    {
        Ok(self.plaintext.len() - self.plaintext_pos)
    }
}

impl SslContext {
    /// If enabled, the handshake pauses and returns instead of automatically
    /// validating the peer's certificate. Valid only while the session is
    /// idle.
    pub fn set_break_on_server_auth(&mut self, value: bool) -> (r: Result<(), Error>)
        requires
            old(self).wf(),
        ensures
            final(self).wf(),
            old(self).state_raw == SESSION_STATE_IDLE ==> (r matches Ok(v) && *final(self)
                == (SslContext { break_on_server_auth: value, ..*old(self) })),
            old(self).state_raw != SESSION_STATE_IDLE ==> (r matches Err(e) && e.code
                == ERR_SEC_BAD_REQ && *final(self) == *old(self)),
    {
        if self.state_raw != SESSION_STATE_IDLE {
            return Err(Error::new(ERR_SEC_BAD_REQ));
        }
        self.break_on_server_auth = value;
        Ok(())
    }

    /// Whether the handshake pauses instead of validating the peer's
    /// certificate automatically.
    pub fn break_on_server_auth(&self) -> (r: Result<bool, Error>)
        ensures
            r matches Ok(b) && b == self.break_on_server_auth,
    {
        Ok(self.break_on_server_auth)
    }

    /// If enabled, the handshake pauses and returns after the peer requests
    /// a certificate from the client. Valid only while the session is idle.
    pub fn set_break_on_cert_requested(&mut self, value: bool) -> (r: Result<(), Error>)
        requires
            old(self).wf(),
        ensures
            final(self).wf(),
            old(self).state_raw == SESSION_STATE_IDLE ==> (r matches Ok(v) && *final(self)
                == (SslContext { break_on_cert_requested: value, ..*old(self) })),
            old(self).state_raw != SESSION_STATE_IDLE ==> (r matches Err(e) && e.code
                == ERR_SEC_BAD_REQ && *final(self) == *old(self)),
    {
        if self.state_raw != SESSION_STATE_IDLE {
            return Err(Error::new(ERR_SEC_BAD_REQ));
        }
        self.break_on_cert_requested = value;
        Ok(())
    }

    /// Whether the handshake pauses after the peer requests a client
    /// certificate.
    pub fn break_on_cert_requested(&self) -> (r: Result<bool, Error>)
        ensures
            r matches Ok(b) && b == self.break_on_cert_requested,
    {
        Ok(self.break_on_cert_requested)
    }

    /// If enabled, the handshake pauses and returns instead of automatically
    /// validating a client's certificate. Valid only while the session is
    /// idle.
    pub fn set_break_on_client_auth(&mut self, value: bool) -> (r: Result<(), Error>)
        requires
            old(self).wf(),
        ensures
            final(self).wf(),
            old(self).state_raw == SESSION_STATE_IDLE ==> (r matches Ok(v) && *final(self)
                == (SslContext { break_on_client_auth: value, ..*old(self) })),
            old(self).state_raw != SESSION_STATE_IDLE ==> (r matches Err(e) && e.code
                == ERR_SEC_BAD_REQ && *final(self) == *old(self)),
    {
        if self.state_raw != SESSION_STATE_IDLE {
            return Err(Error::new(ERR_SEC_BAD_REQ));
        }
        self.break_on_client_auth = value;
        Ok(())
    }

    /// Whether the handshake pauses instead of validating a client's
    /// certificate automatically.
    pub fn break_on_client_auth(&self) -> (r: Result<bool, Error>)
        ensures
            r matches Ok(b) && b == self.break_on_client_auth,
    {
        Ok(self.break_on_client_auth)
    }

    /// If enabled, TLS false start is performed when an appropriate cipher
    /// suite is negotiated. Valid only while the session is idle.
    pub fn set_false_start(&mut self, value: bool) -> (r: Result<(), Error>)
        requires
            old(self).wf(),
        ensures
            final(self).wf(),
            old(self).state_raw == SESSION_STATE_IDLE ==> (r matches Ok(v) && *final(self)
                == (SslContext { false_start: value, ..*old(self) })),
            old(self).state_raw != SESSION_STATE_IDLE ==> (r matches Err(e) && e.code
                == ERR_SEC_BAD_REQ && *final(self) == *old(self)),
    {
        if self.state_raw != SESSION_STATE_IDLE {
            return Err(Error::new(ERR_SEC_BAD_REQ));
        }
        self.false_start = value;
        Ok(())
    }

    /// Whether TLS false start is performed.
    pub fn false_start(&self) -> (r: Result<bool, Error>)
        ensures
            r matches Ok(b) && b == self.false_start,
    {
        Ok(self.false_start)
    }

    /// If enabled, 1/n-1 record splitting is used for block ciphers. Valid
    /// only while the session is idle.
    pub fn set_send_one_byte_record(&mut self, value: bool) -> (r: Result<(), Error>)
        requires
            old(self).wf(),
        ensures
            final(self).wf(),
            old(self).state_raw == SESSION_STATE_IDLE ==> (r matches Ok(v) && *final(self)
                == (SslContext { send_one_byte_record: value, ..*old(self) })),
            old(self).state_raw != SESSION_STATE_IDLE ==> (r matches Err(e) && e.code
                == ERR_SEC_BAD_REQ && *final(self) == *old(self)),
    {
        if self.state_raw != SESSION_STATE_IDLE {
            return Err(Error::new(ERR_SEC_BAD_REQ));
        }
        self.send_one_byte_record = value;
        Ok(())
    }

    /// Whether 1/n-1 record splitting is used.
    pub fn send_one_byte_record(&self) -> (r: Result<bool, Error>)
        ensures
            r matches Ok(b) && b == self.send_one_byte_record,
    {
        Ok(self.send_one_byte_record)
    }
}

/// The byte sequence stored as the peer ID, if any.
pub open spec fn peer_id_view(c: &SslContext) -> Option<Seq<u8>> {
    match c.peer_id {
        Some(v) => Some(v@),
        None => None,
    }
}

/// The byte sequence a borrowed peer-ID answer denotes, if any.
pub open spec fn peer_id_view_of(o: Option<&[u8]>) -> Option<Seq<u8>> {
    match o {
        Some(s) => Some(s@),
        None => None,
    }
}

/// The peer name a trust object describes, if any.
pub open spec fn peer_name_view(t: &SecTrust) -> Option<Seq<u8>> {
    match t.peer_name {
        Some(v) => Some(v@),
        None => None,
    }
}

/// The peer name the context has received from the peer, if any.
pub open spec fn presented_peer_view(c: &SslContext) -> Option<Seq<u8>> {
    match c.presented_peer {
        Some(v) => Some(v@),
        None => None,
    }
}

/// The state a successful `set_peer_domain_name` leaves the context in:
/// exactly the given name stored, everything else unchanged.
pub open spec fn set_peer_domain_name_post(c0: &SslContext, c1: &SslContext, name: Seq<char>) -> bool {
    &&& c1.peer_domain_name@ == name
    &&& *c1 == (SslContext { peer_domain_name: c1.peer_domain_name, ..*c0 })
}

/// The state a successful `set_peer_id` leaves the context in: exactly the
/// given bytes stored, everything else unchanged.
pub open spec fn set_peer_id_post(c0: &SslContext, c1: &SslContext, bytes: Seq<u8>) -> bool {
    &&& peer_id_view(c1) == Some(bytes)
    &&& *c1 == (SslContext { peer_id: c1.peer_id, ..*c0 })
}

/// The state a successful `set_enabled_ciphers` leaves the context in:
/// exactly the given list stored, everything else unchanged.
pub open spec fn set_enabled_ciphers_post(c0: &SslContext, c1: &SslContext, l: Seq<u32>) -> bool {
    &&& c1.enabled@ == l
    &&& *c1 == (SslContext { enabled: c1.enabled, ..*c0 })
}

/// For every enabled-cipher list set through the setter, reading the list
/// back returns exactly that list, order preserved: `enabled_ciphers`
/// answers with the view that `set_enabled_ciphers` stored.
pub proof fn lemma_enabled_ciphers_round_trip(c0: &SslContext, c1: &SslContext, l: Seq<u32>)
    requires
        set_enabled_ciphers_post(c0, c1, l),
    ensures
        c1.enabled@ == l,
{
}

/// For every peer-resumption-identifier byte sequence set through the
/// setter, reading it back returns the identical bytes; and a freshly
/// created context reports no peer ID at all.
pub proof fn lemma_peer_id_round_trip(c0: &SslContext, c1: &SslContext, bytes: Seq<u8>)
    requires
        set_peer_id_post(c0, c1, bytes),
    ensures
        peer_id_view(c1) == Some(bytes),
{
}

/// Before any set call the peer-ID getter reports none: a fresh context
/// stores no peer ID.
pub proof fn lemma_peer_id_unset(c: &SslContext, side: ProtocolSide, type_: ConnectionType)
    requires
        is_fresh_context(c, side, type_),
    ensures
        peer_id_view(c) is None,
{
}

/// For every peer domain name set through the setter, including the empty
/// string, reading it back returns the identical string; and a fresh
/// (unset) context reads back as empty.
pub proof fn lemma_peer_domain_name_round_trip(c0: &SslContext, c1: &SslContext, name: Seq<char>)
    requires
        set_peer_domain_name_post(c0, c1, name),
    ensures
        c1.peer_domain_name@ == name,
{
}

/// A fresh context's peer domain name reads back as the empty string.
pub proof fn lemma_peer_domain_name_unset(c: &SslContext, side: ProtocolSide, type_: ConnectionType)
    requires
        is_fresh_context(c, side, type_),
    ensures
        c.peer_domain_name@ == Seq::<char>::empty(),
{
}


/// Whether the peer-trust accessor is valid for a raw session state: only
/// once the session has left idle. The binding to a real engine takes the
/// precondition check from this.
pub fn peer_trust_allowed(state_raw: i32) -> (r: bool)
    ensures
        r <==> state_raw != SESSION_STATE_IDLE,
{
    state_raw != SESSION_STATE_IDLE
}

} // verus!
