//! The handshake state machine.
//!
//! Each drive step invokes the engine's single "advance handshake" operation
//! once and narrows its status to one of four caller-actionable outcomes:
//! success, a resumable pause (peer authentication pending, client
//! certificate requested, or would-block), or a terminal failure. The
//! modelled engine advances by sending one hello record and receiving one
//! record from the peer carrying a flags byte and the peer's presented
//! domain name, which is validated against the configured peer domain name.

use vstd::prelude::*;

use crate::context::{config_wf, domain_name_bytes, name_check_ok, SslContext};
use crate::records::{be32_decode, be32_val, bytes_eq, frame, frame_spec, MAX_RECORD_PAYLOAD};
use crate::session::{
    CLIENT_CERT_STATE_REQUESTED, CLIENT_CERT_STATE_SENT, PROTOCOL_TLS12, PROTOCOL_UNKNOWN,
    SESSION_STATE_ABORTED, SESSION_STATE_CONNECTED, SESSION_STATE_HANDSHAKE, SESSION_STATE_IDLE,
};
use crate::shim::{read_func, shim_read_model, shim_write_model, write_func, Connection};
use crate::ssl_stream::SslStream;
use crate::status::{
    Error, ERR_SEC_SUCCESS, ERR_SSL_CLIENT_CERT_REQUESTED, ERR_SSL_HOST_NAME_MISMATCH,
    ERR_SSL_PEER_AUTH_COMPLETED, ERR_SSL_RECORD_OVERFLOW, ERR_SSL_WOULD_BLOCK,
};
use crate::stream::{ReadEventModel, ScriptedStream, StreamErrorKind, WriteEvent};
use vstd::slice::{slice_subrange, slice_to_vec};

verus! {

/// The first byte of the hello record's payload.
pub const HELLO_BYTE: u8 = 22;

/// The wire shape of the hello record the handshake sends.
pub open spec fn hello_frame_spec() -> Seq<u8> {
    frame_spec(seq![HELLO_BYTE])
}

/// Builds the hello record.
fn hello_frame() -> (v: Vec<u8>)
    ensures
        v@ == hello_frame_spec(),
        v@.len() == 5,
{
    let mut payload: Vec<u8> = Vec::new();
    payload.push(HELLO_BYTE);
    proof {
        assert(payload@ =~= seq![HELLO_BYTE]);
    }
    frame(&payload)
}

/// How far an inbound record has been read.
#[derive(Debug)]
pub enum RecordProgress {
    /// The four length bytes are not yet together.
    Header(Vec<u8>),
    /// The length is known; the payload is not yet together.
    Body(usize, Vec<u8>),
}

/// Consistency of partial record progress: a header is still short, a body
/// is still short of its announced length, and the announced length is
/// within the record-size limit.
pub open spec fn record_progress_wf(p: &RecordProgress) -> bool {
    match p {
        RecordProgress::Header(h) => h@.len() < 4,
        RecordProgress::Body(need, got) => got@.len() < *need <= MAX_RECORD_PAYLOAD,
    }
}

/// The mathematical shape of a [`RecordProgress`].
pub enum RecordProgressModel {
    /// The four length bytes are not yet together.
    Header(Seq<u8>),
    /// The length is known; the payload is not yet together.
    Body(int, Seq<u8>),
}

/// Where the handshake stands between drive steps.
#[derive(Debug)]
pub enum HandshakePhase {
    /// The hello record is being sent; this many bytes are out.
    SendHello { sent: usize },
    /// The peer's record is being received.
    Receive { prog: RecordProgress },
    /// The record passed validation; pauses may still be owed before
    /// completion.
    Accept,
    /// The handshake has completed.
    Done,
}

impl HandshakePhase {
    /// Consistency of the phase's partial progress.
    pub open spec fn wf(&self) -> bool {
        match self {
            HandshakePhase::SendHello { sent } => *sent < 5,
            HandshakePhase::Receive { prog } => record_progress_wf(prog),
            HandshakePhase::Accept => true,
            HandshakePhase::Done => true,
        }
    }
}

/// The mathematical shape of a [`HandshakePhase`].
pub enum HandshakePhaseModel {
    /// The hello record is being sent.
    SendHello(int),
    /// The peer's record is being received.
    Receive(RecordProgressModel),
    /// The record passed validation.
    Accept,
    /// The handshake has completed.
    Done,
}

/// The mathematical shape of a phase, with partial progress as sequences.
pub open spec fn phase_view(p: &HandshakePhase) -> HandshakePhaseModel {
    match p {
        HandshakePhase::SendHello { sent } => HandshakePhaseModel::SendHello(*sent as int),
        HandshakePhase::Receive { prog } => HandshakePhaseModel::Receive(prog_view(prog)),
        HandshakePhase::Accept => HandshakePhaseModel::Accept,
        HandshakePhase::Done => HandshakePhaseModel::Done,
    }
}

/// Whether the stream's next write outcome is "not ready".
pub open spec fn write_blocked(reads_writes: Seq<WriteEvent>) -> bool {
    reads_writes.len() > 0 && reads_writes[0] == WriteEvent::Error(StreamErrorKind::WouldBlock)
}

/// Whether the stream's next read outcome is "not ready".
pub open spec fn read_blocked(reads: Seq<ReadEventModel>) -> bool {
    reads.len() > 0 && reads[0] == ReadEventModel::Error(StreamErrorKind::WouldBlock)
}

/// The mathematical shape of partial record progress.
pub open spec fn prog_view(p: &RecordProgress) -> RecordProgressModel {
    match p {
        RecordProgress::Header(h) => RecordProgressModel::Header(h@),
        RecordProgress::Body(need, got) => RecordProgressModel::Body(*need as int, got@),
    }
}

/// Whether a status is one of the three resumable pauses.
pub open spec fn hs_pause(st: i32) -> bool {
    ||| st == ERR_SSL_PEER_AUTH_COMPLETED
    ||| st == ERR_SSL_CLIENT_CERT_REQUESTED
    ||| st == ERR_SSL_WOULD_BLOCK
}

/// What one drive step guarantees of the context it leaves behind, by the
/// status it reports: success means connected, done, and the peer-name rule
/// satisfied; a pause means the handshake is still in progress and
/// resumable; anything else is terminal.
pub open spec fn hs_outcome_ok(c: &SslContext, st: i32) -> bool {
    &&& st == ERR_SEC_SUCCESS ==> c.state_raw == SESSION_STATE_CONNECTED && c.phase is Done
        && name_check_ok(c)
    &&& hs_pause(st) ==> c.state_raw == SESSION_STATE_HANDSHAKE && !(c.phase is Done)
    &&& st == ERR_SSL_PEER_AUTH_COMPLETED ==> c.phase is Accept && c.auth_reported
    &&& st == ERR_SSL_CLIENT_CERT_REQUESTED ==> c.phase is Accept && c.cert_requested
    &&& st == ERR_SSL_WOULD_BLOCK ==> (c.phase is SendHello || c.phase is Receive)
    &&& !(st == ERR_SEC_SUCCESS || hs_pause(st)) ==> c.state_raw == SESSION_STATE_ABORTED
}

/// The configuration fields a drive step never touches.
pub open spec fn config_frozen(c0: &SslContext, c1: &SslContext) -> bool {
    &&& c1.side == c0.side
    &&& c1.conn_type == c0.conn_type
    &&& c1.peer_domain_name@ == c0.peer_domain_name@
    &&& c1.peer_id == c0.peer_id
    &&& c1.certificate == c0.certificate
    &&& c1.cert_chain == c0.cert_chain
    &&& c1.enabled == c0.enabled
    &&& c1.protocol_min_raw == c0.protocol_min_raw
    &&& c1.protocol_max_raw == c0.protocol_max_raw
    &&& c1.client_auth == c0.client_auth
    &&& c1.break_on_server_auth == c0.break_on_server_auth
    &&& c1.break_on_cert_requested == c0.break_on_cert_requested
    &&& c1.break_on_client_auth == c0.break_on_client_auth
    &&& c1.false_start == c0.false_start
    &&& c1.send_one_byte_record == c0.send_one_byte_record
    &&& c1.plaintext == c0.plaintext
    &&& c1.plaintext_pos == c0.plaintext_pos
    &&& c1.rd_prog == c0.rd_prog
    &&& c1.wr_pending == c0.wr_pending
}

/// What pulling one record from a read script yields: the definitive
/// status, the payload when the record is complete, and the stream error
/// recorded on the way.
pub struct RecordPullModel {
    /// The status the pull ends with.
    pub status: i32,
    /// The record's payload, when the status is success.
    pub payload: Seq<u8>,
    /// The read events that remain.
    pub reads: Seq<ReadEventModel>,
    /// The stream error recorded by the shim, if the pull ended on one.
    pub err: Option<StreamErrorKind>,
}

/// Pulling one record, resumed from the given progress, as a function of
/// the read script: the rest of the four length bytes, then the announced
/// payload, with an announced length over the record-size limit rejected.
pub open spec fn pull_model(prog: RecordProgressModel, reads: Seq<ReadEventModel>) -> RecordPullModel {
    match prog {
        RecordProgressModel::Header(h) => {
            let m1 = shim_read_model(reads, 4 - h.len());
            if m1.status != ERR_SEC_SUCCESS {
                RecordPullModel {
                    status: m1.status,
                    payload: Seq::empty(),
                    reads: m1.reads,
                    err: m1.err,
                }
            } else {
                let need = be32_val(h + m1.taken);
                if need > MAX_RECORD_PAYLOAD as int {
                    RecordPullModel {
                        status: ERR_SSL_RECORD_OVERFLOW,
                        payload: Seq::empty(),
                        reads: m1.reads,
                        err: None,
                    }
                } else if need == 0 {
                    RecordPullModel {
                        status: ERR_SEC_SUCCESS,
                        payload: Seq::empty(),
                        reads: m1.reads,
                        err: None,
                    }
                } else {
                    let m2 = shim_read_model(m1.reads, need);
                    RecordPullModel {
                        status: m2.status,
                        payload: if m2.status == ERR_SEC_SUCCESS {
                            m2.taken
                        } else {
                            Seq::empty()
                        },
                        reads: m2.reads,
                        err: m2.err,
                    }
                }
            }
        },
        RecordProgressModel::Body(need, got) => {
            let m = shim_read_model(reads, need - got.len());
            RecordPullModel {
                status: m.status,
                payload: if m.status == ERR_SEC_SUCCESS {
                    got + m.taken
                } else {
                    Seq::empty()
                },
                reads: m.reads,
                err: m.err,
            }
        },
    }
}

/// The status the pause/completion leg reports, as a function of the
/// break-on options, what has already been reported, and whether the peer
/// requested a certificate.
pub open spec fn accept_status(c: &SslContext, cert_requested: bool) -> i32 {
    if c.break_on_server_auth && !c.auth_reported {
        ERR_SSL_PEER_AUTH_COMPLETED
    } else if cert_requested && c.break_on_cert_requested && !c.cert_reported {
        ERR_SSL_CLIENT_CERT_REQUESTED
    } else {
        ERR_SEC_SUCCESS
    }
}

/// The status validation of a complete peer record reports: the peer-name
/// mismatch failure, or the pause/completion status with the record's
/// certificate-request flag taken into account.
pub open spec fn finish_status(c: &SslContext, payload: Seq<u8>) -> i32 {
    let name = if payload.len() > 0 {
        payload.skip(1)
    } else {
        payload
    };
    let flags: u8 = if payload.len() > 0 {
        payload[0]
    } else {
        0
    };
    if domain_name_bytes(c).len() != 0 && name != domain_name_bytes(c) {
        ERR_SSL_HOST_NAME_MISMATCH
    } else {
        accept_status(c, c.cert_requested || flags & 1 == 1)
    }
}

/// The status one receive leg reports: pull the record, then validate it.
pub open spec fn receive_status(
    c: &SslContext,
    reads: Seq<ReadEventModel>,
    prog: RecordProgressModel,
) -> i32 {
    let m = pull_model(prog, reads);
    if m.status != ERR_SEC_SUCCESS {
        m.status
    } else {
        finish_status(c, m.payload)
    }
}

/// The status one drive step reports, as a function of the context and the
/// stream's scripts: this is the engine model's single "advance handshake"
/// operation, stated mathematically.
pub open spec fn drive_status(
    c: &SslContext,
    reads: Seq<ReadEventModel>,
    writes: Seq<WriteEvent>,
) -> i32 {
    match c.phase {
        HandshakePhase::SendHello { sent } => {
            let mw = shim_write_model(writes, 5 - sent);
            if mw.status != ERR_SEC_SUCCESS {
                mw.status
            } else {
                receive_status(c, reads, RecordProgressModel::Header(Seq::empty()))
            }
        },
        HandshakePhase::Receive { prog } => receive_status(c, reads, prog_view(&prog)),
        HandshakePhase::Accept => accept_status(c, c.cert_requested),
        HandshakePhase::Done => ERR_SEC_SUCCESS,
    }
}

/// The read script left after one drive step: consumed only while receiving
/// the peer's record.
pub open spec fn drive_reads(
    c: &SslContext,
    reads: Seq<ReadEventModel>,
    writes: Seq<WriteEvent>,
) -> Seq<ReadEventModel> {
    match c.phase {
        HandshakePhase::SendHello { sent } => {
            let mw = shim_write_model(writes, 5 - sent);
            if mw.status != ERR_SEC_SUCCESS {
                reads
            } else {
                pull_model(RecordProgressModel::Header(Seq::empty()), reads).reads
            }
        },
        HandshakePhase::Receive { prog } => pull_model(prog_view(&prog), reads).reads,
        HandshakePhase::Accept => reads,
        HandshakePhase::Done => reads,
    }
}

/// The write script left after one drive step: consumed only while sending
/// the hello record.
pub open spec fn drive_writes(c: &SslContext, writes: Seq<WriteEvent>) -> Seq<WriteEvent> {
    match c.phase {
        HandshakePhase::SendHello { sent } => shim_write_model(writes, 5 - sent).writes,
        _ => writes,
    }
}

/// The bytes one drive step sends: the next accepted prefix of the hello
/// record in the send phase, nothing in any other phase.
pub open spec fn drive_written_tail(c: &SslContext, writes: Seq<WriteEvent>) -> Seq<u8> {
    match c.phase {
        HandshakePhase::SendHello { sent } => {
            let mw = shim_write_model(writes, 5 - sent);
            hello_frame_spec().subrange(sent as int, sent + mw.sent)
        },
        _ => Seq::empty(),
    }
}

/// The stream error preserved on the shim after one drive step.
pub open spec fn drive_err(
    c: &SslContext,
    reads: Seq<ReadEventModel>,
    writes: Seq<WriteEvent>,
    err0: Option<StreamErrorKind>,
) -> Option<StreamErrorKind> {
    match c.phase {
        HandshakePhase::SendHello { sent } => {
            let mw = shim_write_model(writes, 5 - sent);
            if mw.status != ERR_SEC_SUCCESS {
                if mw.err is Some {
                    mw.err
                } else {
                    err0
                }
            } else {
                let m = pull_model(RecordProgressModel::Header(Seq::empty()), reads);
                if m.err is Some {
                    m.err
                } else {
                    err0
                }
            }
        },
        HandshakePhase::Receive { prog } => {
            let m = pull_model(prog_view(&prog), reads);
            if m.err is Some {
                m.err
            } else {
                err0
            }
        },
        HandshakePhase::Accept => err0,
        HandshakePhase::Done => err0,
    }
}

/// While the underlying stream is kept not-ready at the point where a
/// paused handshake performs its I/O, a drive step reports would-block
/// again: resuming never silently completes or fails.
pub proof fn lemma_blocked_resume_pauses(
    c: &SslContext,
    reads: Seq<ReadEventModel>,
    writes: Seq<WriteEvent>,
)
    requires
        c.phase is SendHello || c.phase is Receive,
        c.phase.wf(),
        c.phase is SendHello ==> write_blocked(writes),
        c.phase is Receive ==> read_blocked(reads),
    ensures
        drive_status(c, reads, writes) == ERR_SSL_WOULD_BLOCK,
{
    match c.phase {
        HandshakePhase::SendHello { sent } => {
            assert(shim_write_model(writes, 5 - sent).status == ERR_SSL_WOULD_BLOCK);
        },
        HandshakePhase::Receive { prog } => {
            match prog {
                RecordProgress::Header(h) => {
                    assert(shim_read_model(reads, 4 - h@.len()).status == ERR_SSL_WOULD_BLOCK);
                },
                RecordProgress::Body(need, got) => {
                    assert(shim_read_model(reads, need - got@.len()).status
                        == ERR_SSL_WOULD_BLOCK);
                },
            }
        },
        HandshakePhase::Accept => {},
        HandshakePhase::Done => {},
    }
}

/// The caller-actionable narrowing of a raw handshake status, as plain
/// data: the binding to a real engine takes its decision from this.
#[derive(Debug, Copy, Clone, PartialEq, Eq, Structural)]
pub enum HandshakeDisposition {
    /// The handshake is complete; the stream is ready.
    Complete,
    /// Peer authentication completed and the caller asked to break there.
    PeerAuthPause,
    /// The peer requested a client certificate and the caller asked to
    /// break there.
    ClientCertPause,
    /// The stream was not ready; wait and resume.
    WouldBlockPause,
    /// Terminal failure.
    Fatal,
}

/// Narrows a raw handshake status down to the four caller-actionable
/// outcomes.
pub fn classify_handshake_status(st: i32) -> (r: HandshakeDisposition)
    ensures
        r == HandshakeDisposition::Complete <==> st == ERR_SEC_SUCCESS,
        r == HandshakeDisposition::PeerAuthPause <==> st == ERR_SSL_PEER_AUTH_COMPLETED,
        r == HandshakeDisposition::ClientCertPause <==> st == ERR_SSL_CLIENT_CERT_REQUESTED,
        r == HandshakeDisposition::WouldBlockPause <==> st == ERR_SSL_WOULD_BLOCK,
        r == HandshakeDisposition::Fatal <==> !(st == ERR_SEC_SUCCESS || hs_pause(st)),
{
    if st == ERR_SEC_SUCCESS {
        HandshakeDisposition::Complete
    } else if st == ERR_SSL_PEER_AUTH_COMPLETED {
        HandshakeDisposition::PeerAuthPause
    } else if st == ERR_SSL_CLIENT_CERT_REQUESTED {
        HandshakeDisposition::ClientCertPause
    } else if st == ERR_SSL_WOULD_BLOCK {
        HandshakeDisposition::WouldBlockPause
    } else {
        HandshakeDisposition::Fatal
    }
}

impl SslContext {
    /// Marks a shim interruption: a would-block pause leaves the session
    /// where it was, anything else aborts it.
    fn interrupt(&mut self, st: i32) -> (r: i32)
        requires
            st != ERR_SEC_SUCCESS,
        ensures
            r == st,
            *final(self) == (SslContext { state_raw: final(self).state_raw, ..*old(self) }),
            st == ERR_SSL_WOULD_BLOCK ==> final(self).state_raw == old(self).state_raw,
            st != ERR_SSL_WOULD_BLOCK ==> final(self).state_raw == SESSION_STATE_ABORTED,
    {
        if st != ERR_SSL_WOULD_BLOCK {
            self.state_raw = SESSION_STATE_ABORTED;
        }
        st
    }

    /// The last leg of a drive step, once the peer's record has passed
    /// validation: report any pause still owed to the caller, then complete
    /// the handshake.
    fn drive_accept(&mut self) -> (st: i32)
        requires
            config_wf(old(self)),
            old(self).state_raw == SESSION_STATE_HANDSHAKE,
            old(self).phase is Accept,
            name_check_ok(old(self)),
            old(self).presented_peer is Some,
        ensures
            final(self).wf(),
            hs_outcome_ok(final(self), st),
            config_frozen(old(self), final(self)),
            st == accept_status(old(self), old(self).cert_requested),
            st == ERR_SEC_SUCCESS || st == ERR_SSL_PEER_AUTH_COMPLETED || st
                == ERR_SSL_CLIENT_CERT_REQUESTED,
    {
        if self.break_on_server_auth && !self.auth_reported {
            self.auth_reported = true;
            return ERR_SSL_PEER_AUTH_COMPLETED;
        }
        if self.cert_requested && self.break_on_cert_requested && !self.cert_reported {
            self.cert_reported = true;
            return ERR_SSL_CLIENT_CERT_REQUESTED;
        }
        self.negotiated_cipher = Some(self.enabled[0]);
        self.negotiated_protocol_raw = if self.protocol_max_raw != PROTOCOL_UNKNOWN {
            self.protocol_max_raw
        } else {
            PROTOCOL_TLS12
        };
        self.state_raw = SESSION_STATE_CONNECTED;
        self.phase = HandshakePhase::Done;
        ERR_SEC_SUCCESS
    }

    /// Validates the peer's record — a flags byte followed by the peer's
    /// presented domain name — against the configured peer domain name, then
    /// hands over to the pause/completion leg.
    #[verifier::rlimit(80)]
    fn finish_record(&mut self, payload: Vec<u8>) -> (st: i32)
        requires
            config_wf(old(self)),
            old(self).state_raw == SESSION_STATE_HANDSHAKE,
        ensures
            final(self).wf(),
            hs_outcome_ok(final(self), st),
            config_frozen(old(self), final(self)),
            st == finish_status(old(self), payload@),
            st != ERR_SSL_WOULD_BLOCK,
    {
        let flags: u8 = if payload.len() > 0 {
            payload[0]
        } else {
            0
        };
        let name: Vec<u8> = if payload.len() > 0 {
            slice_to_vec(slice_subrange(payload.as_slice(), 1, payload.len()))
        } else {
            Vec::new()
        };
        if flags & 1 == 1 {
            self.cert_requested = true;
            self.client_cert_state_raw = if self.certificate.is_some() {
                CLIENT_CERT_STATE_SENT
            } else {
                CLIENT_CERT_STATE_REQUESTED
            };
        }
        let name_ok = {
            let dn = self.peer_domain_name.as_str().as_bytes();
            dn.len() == 0 || bytes_eq(dn, name.as_slice())
        };
        self.presented_peer = Some(name);
        if !name_ok {
            self.phase = HandshakePhase::Receive { prog: RecordProgress::Header(Vec::new()) };
            self.state_raw = SESSION_STATE_ABORTED;
            return ERR_SSL_HOST_NAME_MISMATCH;
        }
        self.phase = HandshakePhase::Accept;
        self.drive_accept()
    }

    /// Reads the remainder of the peer record's payload through the shim,
    /// then validates it.
    fn drive_body(&mut self, need: usize, got: Vec<u8>, conn: &mut Connection) -> (st: i32)
        requires
            config_wf(old(self)),
            old(self).state_raw == SESSION_STATE_HANDSHAKE,
            got@.len() < need <= MAX_RECORD_PAYLOAD,
        ensures
            final(self).wf(),
            hs_outcome_ok(final(self), st),
            config_frozen(old(self), final(self)),
            final(conn).stream@.written == old(conn).stream@.written,
            final(conn).stream@.writes == old(conn).stream@.writes,
            final(conn).stream@.flushes == old(conn).stream@.flushes,
            ({
                let m = pull_model(
                    RecordProgressModel::Body(need as int, got@),
                    old(conn).stream@.reads,
                );
                &&& final(conn).stream@.reads == m.reads
                &&& final(conn).err == (if m.err is Some {
                    m.err
                } else {
                    old(conn).err
                })
            }),
            st == receive_status(
                old(self),
                old(conn).stream@.reads,
                RecordProgressModel::Body(need as int, got@),
            ),
            read_blocked(old(conn).stream@.reads) ==> st == ERR_SSL_WOULD_BLOCK && phase_view(
                &final(self).phase,
            ) == HandshakePhaseModel::Receive(RecordProgressModel::Body(need as int, got@)),
    {
        let ghost g0 = got@;
        let mut got = got;
        let (st, mut bytes) = read_func(conn, need - got.len());
        got.append(&mut bytes);
        proof {
            assert(g0 + Seq::<u8>::empty() =~= g0);
        }
        if st != ERR_SEC_SUCCESS {
            self.phase = HandshakePhase::Receive { prog: RecordProgress::Body(need, got) };
            return self.interrupt(st);
        }
        self.finish_record(got)
    }

    /// Reads the peer's record through the shim — the four length bytes,
    /// then the announced payload — rejecting an announced length over the
    /// record-size limit, then validates the payload.
    #[verifier::rlimit(80)]
    fn drive_receive(&mut self, prog: RecordProgress, conn: &mut Connection) -> (st: i32)
        requires
            config_wf(old(self)),
            old(self).state_raw == SESSION_STATE_HANDSHAKE,
            record_progress_wf(&prog),
        ensures
            final(self).wf(),
            hs_outcome_ok(final(self), st),
            config_frozen(old(self), final(self)),
            final(conn).stream@.written == old(conn).stream@.written,
            final(conn).stream@.writes == old(conn).stream@.writes,
            final(conn).stream@.flushes == old(conn).stream@.flushes,
            ({
                let m = pull_model(prog_view(&prog), old(conn).stream@.reads);
                &&& final(conn).stream@.reads == m.reads
                &&& final(conn).err == (if m.err is Some {
                    m.err
                } else {
                    old(conn).err
                })
            }),
            st == receive_status(old(self), old(conn).stream@.reads, prog_view(&prog)),
            read_blocked(old(conn).stream@.reads) ==> st == ERR_SSL_WOULD_BLOCK && phase_view(
                &final(self).phase,
            ) == HandshakePhaseModel::Receive(prog_view(&prog)),
    {
        match prog {
            RecordProgress::Body(need, got) => self.drive_body(need, got, conn),
            RecordProgress::Header(got) => {
                let ghost g0 = got@;
                let mut got = got;
                let (st, mut bytes) = read_func(conn, 4 - got.len());
                got.append(&mut bytes);
                proof {
                    assert(g0 + Seq::<u8>::empty() =~= g0);
                }
                if st != ERR_SEC_SUCCESS {
                    self.phase = HandshakePhase::Receive { prog: RecordProgress::Header(got) };
                    return self.interrupt(st);
                }
                let need64 = be32_decode(&got);
                if need64 > MAX_RECORD_PAYLOAD as u64 {
                    self.phase = HandshakePhase::Receive {
                        prog: RecordProgress::Header(Vec::new()),
                    };
                    self.state_raw = SESSION_STATE_ABORTED;
                    return ERR_SSL_RECORD_OVERFLOW;
                }
                let need = need64 as usize;
                if need == 0 {
                    return self.finish_record(Vec::new());
                }
                self.drive_body(need, Vec::new(), conn)
            },
        }
    }

    /// Sends the hello record through the shim, then moves on to receiving
    /// the peer's record.
    fn drive_send_hello(&mut self, sent: usize, conn: &mut Connection) -> (st: i32)
        requires
            config_wf(old(self)),
            old(self).state_raw == SESSION_STATE_HANDSHAKE,
            sent < 5,
        ensures
            final(self).wf(),
            hs_outcome_ok(final(self), st),
            config_frozen(old(self), final(self)),
            ({
                let m = shim_write_model(old(conn).stream@.writes, 5 - sent);
                final(conn).stream@.written == old(conn).stream@.written
                    + hello_frame_spec().subrange(sent as int, sent + m.sent)
            }),
            st == ({
                let mw = shim_write_model(old(conn).stream@.writes, 5 - sent);
                if mw.status != ERR_SEC_SUCCESS {
                    mw.status
                } else {
                    receive_status(
                        old(self),
                        old(conn).stream@.reads,
                        RecordProgressModel::Header(Seq::empty()),
                    )
                }
            }),
            final(conn).stream@.flushes == old(conn).stream@.flushes,
            final(conn).stream@.writes == shim_write_model(old(conn).stream@.writes, 5 - sent).writes,
            ({
                let mw = shim_write_model(old(conn).stream@.writes, 5 - sent);
                if mw.status != ERR_SEC_SUCCESS {
                    &&& final(conn).stream@.reads == old(conn).stream@.reads
                    &&& final(conn).err == (if mw.err is Some {
                        mw.err
                    } else {
                        old(conn).err
                    })
                } else {
                    let m = pull_model(
                        RecordProgressModel::Header(Seq::empty()),
                        old(conn).stream@.reads,
                    );
                    &&& final(conn).stream@.reads == m.reads
                    &&& final(conn).err == (if m.err is Some {
                        m.err
                    } else {
                        old(conn).err
                    })
                }
            }),
            write_blocked(old(conn).stream@.writes) ==> st == ERR_SSL_WOULD_BLOCK && phase_view(
                &final(self).phase,
            ) == HandshakePhaseModel::SendHello(sent as int),
    {
        let hello = hello_frame();
        let (st, n) = write_func(conn, &hello, sent);
        if st != ERR_SEC_SUCCESS {
            self.phase = HandshakePhase::SendHello { sent: sent + n };
            return self.interrupt(st);
        }
        self.drive_receive(RecordProgress::Header(Vec::new()), conn)
    }

    /// One drive step: invokes the modelled engine's single "advance
    /// handshake" operation once. The step reports success exactly when the
    /// session completed the handshake (and then the peer-name rule holds),
    /// one of the three pauses when the caller must act and resume, and a
    /// terminal status otherwise; a stream that is merely not ready only
    /// ever pauses the handshake, leaving its progress exactly where it
    /// was.
    pub(crate) fn drive(&mut self, conn: &mut Connection) -> (st: i32)
        requires
            old(self).wf(),
            !(old(self).phase is Done),
            old(self).state_raw == SESSION_STATE_IDLE || old(self).state_raw
                == SESSION_STATE_HANDSHAKE,
        ensures
            final(self).wf(),
            hs_outcome_ok(final(self), st),
            config_frozen(old(self), final(self)),
            (match old(self).phase {
                HandshakePhase::SendHello { sent } => write_blocked(old(conn).stream@.writes),
                HandshakePhase::Receive { prog } => read_blocked(old(conn).stream@.reads),
                _ => false,
            }) ==> st == ERR_SSL_WOULD_BLOCK && phase_view(&final(self).phase) == phase_view(
                &old(self).phase,
            ),
            final(conn).stream@.written == old(conn).stream@.written + drive_written_tail(
                old(self),
                old(conn).stream@.writes,
            ),
            final(conn).stream@.reads == drive_reads(
                old(self),
                old(conn).stream@.reads,
                old(conn).stream@.writes,
            ),
            final(conn).stream@.writes == drive_writes(old(self), old(conn).stream@.writes),
            final(conn).stream@.flushes == old(conn).stream@.flushes,
            final(conn).err == drive_err(
                old(self),
                old(conn).stream@.reads,
                old(conn).stream@.writes,
                old(conn).err,
            ),
            st == drive_status(old(self), old(conn).stream@.reads, old(conn).stream@.writes),
    {
        self.state_raw = SESSION_STATE_HANDSHAKE;
        proof {
            assert(old(conn).stream@.written + Seq::<u8>::empty() =~= old(conn).stream@.written);
        }
        let mut ph = HandshakePhase::SendHello { sent: 0 };
        core::mem::swap(&mut ph, &mut self.phase);
        match ph {
            HandshakePhase::SendHello { sent } => self.drive_send_hello(sent, conn),
            HandshakePhase::Receive { prog } => self.drive_receive(prog, conn),
            HandshakePhase::Accept => {
                self.phase = HandshakePhase::Accept;
                self.drive_accept()
            },
            HandshakePhase::Done => {
                proof {
                    assert(false);
                }
                self.phase = HandshakePhase::Done;
                ERR_SEC_SUCCESS
            },
        }
    }
}


/// An error or intermediate state after a TLS handshake attempt.
#[derive(Debug)]
pub enum HandshakeError {
    /// The handshake failed; the attempt's resources are torn down and the
    /// caller's stream is not returned.
    Failure(Error),
    /// The `break_on_server_auth` option was enabled and authentication has
    /// completed; retrieve the peer's trust object, validate it, and resume.
    ServerAuthCompleted(MidHandshakeSslStream),
    /// The `break_on_cert_requested` option was enabled and the peer has
    /// requested a certificate; install one and resume.
    ClientCertRequested(MidHandshakeSslStream),
    /// The underlying stream reported that it is not ready; wait for
    /// readiness and resume.
    WouldBlock(MidHandshakeSslStream),
}

/// An SSL stream midway through the handshake process: the suspended session
/// and shim, owned together so that abandoning the attempt releases both.
#[derive(Debug)]
pub struct MidHandshakeSslStream(pub SslStream);

/// What each narrowing outcome guarantees: a ready stream on success (with
/// the peer-name rule satisfied), a resumable suspended stream behind each
/// pause, and a non-success code behind a failure.
pub open spec fn handshake_outcome_wf(r: &Result<SslStream, HandshakeError>) -> bool {
    match r {
        Ok(s) => s.wf() && s.ctx.phase is Done && s.ctx.state_raw == SESSION_STATE_CONNECTED
            && name_check_ok(&s.ctx),
        Err(HandshakeError::ServerAuthCompleted(m)) => m.0.wf() && m.0.ctx.state_raw
            == SESSION_STATE_HANDSHAKE && m.0.ctx.phase is Accept && m.0.ctx.auth_reported,
        Err(HandshakeError::ClientCertRequested(m)) => m.0.wf() && m.0.ctx.state_raw
            == SESSION_STATE_HANDSHAKE && m.0.ctx.phase is Accept && m.0.ctx.cert_requested,
        Err(HandshakeError::WouldBlock(m)) => m.0.wf() && m.0.ctx.state_raw
            == SESSION_STATE_HANDSHAKE && (m.0.ctx.phase is SendHello || m.0.ctx.phase
            is Receive),
        Err(HandshakeError::Failure(e)) => e.code != ERR_SEC_SUCCESS,
    }
}

/// Whatever the outcome carries — the ready stream, or the suspended
/// attempt behind a pause — keeps the caller's configuration untouched.
pub open spec fn outcome_config_frozen(c0: &SslContext, r: &Result<SslStream, HandshakeError>) -> bool {
    match r {
        Ok(s) => config_frozen(c0, &s.ctx),
        Err(HandshakeError::ServerAuthCompleted(m)) => config_frozen(c0, &m.0.ctx),
        Err(HandshakeError::ClientCertRequested(m)) => config_frozen(c0, &m.0.ctx),
        Err(HandshakeError::WouldBlock(m)) => config_frozen(c0, &m.0.ctx),
        Err(HandshakeError::Failure(e)) => true,
    }
}

/// The connection an outcome carries: the caller's stream and shim, still
/// owned by the ready stream or by the suspended attempt; only a terminal
/// failure tears them down.
pub open spec fn carried_conn(r: &Result<SslStream, HandshakeError>) -> Option<Connection> {
    match r {
        Ok(s) => Some(s.conn),
        Err(HandshakeError::ServerAuthCompleted(m)) => Some(m.0.conn),
        Err(HandshakeError::ClientCertRequested(m)) => Some(m.0.conn),
        Err(HandshakeError::WouldBlock(m)) => Some(m.0.conn),
        Err(HandshakeError::Failure(e)) => None,
    }
}

/// Which outcome variant a drive status narrows to, by if-and-only-if.
pub open spec fn outcome_matches_status(r: &Result<SslStream, HandshakeError>, st: i32) -> bool {
    &&& (r is Ok <==> st == ERR_SEC_SUCCESS)
    &&& ((r matches Err(HandshakeError::ServerAuthCompleted(m))) <==> st
        == ERR_SSL_PEER_AUTH_COMPLETED)
    &&& ((r matches Err(HandshakeError::ClientCertRequested(m))) <==> st
        == ERR_SSL_CLIENT_CERT_REQUESTED)
    &&& ((r matches Err(HandshakeError::WouldBlock(m))) <==> st == ERR_SSL_WOULD_BLOCK)
    &&& (r matches Err(HandshakeError::Failure(e)) ==> e.code == st && st != ERR_SEC_SUCCESS
        && !hs_pause(st))
}

/// Narrows a drive step's status to the caller-actionable outcome.
fn narrow_outcome(s: SslStream, st: i32) -> (r: Result<SslStream, HandshakeError>)
    requires
        s.wf(),
        hs_outcome_ok(&s.ctx, st),
    ensures
        handshake_outcome_wf(&r),
        st == ERR_SEC_SUCCESS <==> r is Ok,
        st == ERR_SSL_WOULD_BLOCK <==> (r matches Err(HandshakeError::WouldBlock(m))),
        st == ERR_SSL_PEER_AUTH_COMPLETED <==> (r matches Err(
            HandshakeError::ServerAuthCompleted(m),
        )),
        st == ERR_SSL_CLIENT_CERT_REQUESTED <==> (r matches Err(
            HandshakeError::ClientCertRequested(m),
        )),
        (r matches Err(HandshakeError::WouldBlock(m)) ==> m.0 == s),
        (r matches Err(HandshakeError::ServerAuthCompleted(m)) ==> m.0 == s),
        (r matches Err(HandshakeError::ClientCertRequested(m)) ==> m.0 == s),
        (r matches Err(HandshakeError::Failure(e)) ==> e.code == st),
        (r matches Ok(out) ==> out == s),
{
    if st == ERR_SEC_SUCCESS {
        Ok(s)
    } else if st == ERR_SSL_PEER_AUTH_COMPLETED {
        Err(HandshakeError::ServerAuthCompleted(MidHandshakeSslStream(s)))
    } else if st == ERR_SSL_CLIENT_CERT_REQUESTED {
        Err(HandshakeError::ClientCertRequested(MidHandshakeSslStream(s)))
    } else if st == ERR_SSL_WOULD_BLOCK {
        Err(HandshakeError::WouldBlock(MidHandshakeSslStream(s)))
    } else {
        Err(HandshakeError::Failure(Error::new(st)))
    }
}

impl SslContext {
    /// Performs the SSL/TLS handshake: installs the connection shim around
    /// the caller's stream, ties their lifetimes together, and drives the
    /// first step. A stream that is not ready only ever pauses the attempt
    /// with `WouldBlock`, leaving the handshake exactly where it was.
    pub fn handshake(self, stream: ScriptedStream) -> (r: Result<SslStream, HandshakeError>)
        requires
            self.wf(),
            self.state_raw == SESSION_STATE_IDLE,
        ensures
            handshake_outcome_wf(&r),
            outcome_matches_status(&r, drive_status(&self, stream@.reads, stream@.writes)),
            outcome_config_frozen(&self, &r),
            (carried_conn(&r) matches Some(c) ==> ({
                &&& c.stream@.written == stream@.written + drive_written_tail(
                    &self,
                    stream@.writes,
                )
                &&& c.stream@.reads == drive_reads(&self, stream@.reads, stream@.writes)
                &&& c.stream@.writes == drive_writes(&self, stream@.writes)
                &&& c.stream@.flushes == stream@.flushes
                &&& c.err == drive_err(&self, stream@.reads, stream@.writes, None)
            })),
            write_blocked(stream@.writes) ==> (r matches Err(HandshakeError::WouldBlock(m))
                && phase_view(&m.0.ctx.phase) == phase_view(&self.phase)),
    {
        let mut ctx = self;
        let mut conn = Connection { stream, err: None };
        let st = ctx.drive(&mut conn);
        narrow_outcome(SslStream { ctx, conn }, st)
    }
}

impl MidHandshakeSslStream {
    /// Returns a shared reference to the inner stream.
    pub fn get_ref(&self) -> (r: &ScriptedStream)
        ensures
            *r == self.0.conn.stream,
    {
        self.0.get_ref()
    }

    /// Returns a mutable reference to the inner stream.
    pub fn get_mut(&mut self) -> (r: &mut ScriptedStream)
        ensures
            *r == old(self).0.conn.stream,
            final(self).0.conn.stream == *final(r),
            final(self).0.ctx == old(self).0.ctx,
            final(self).0.conn.err == old(self).0.conn.err,
    {
        self.0.get_mut()
    }

    /// Returns a shared reference to the `SslContext` of the stream.
    pub fn context(&self) -> (r: &SslContext)
        ensures
            *r == self.0.ctx,
    {
        self.0.context()
    }

    /// Returns a mutable reference to the `SslContext` of the stream.
    pub fn context_mut(&mut self) -> (r: &mut SslContext)
        ensures
            *r == old(self).0.ctx,
            final(self).0.ctx == *final(r),
            final(self).0.conn == old(self).0.conn,
    {
        self.0.context_mut()
    }

    /// Restarts the handshake process: drives the engine one more step and
    /// narrows the result again. While the underlying stream stays not
    /// ready, every resume reports `WouldBlock` again with the handshake's
    /// progress unchanged; it never silently completes or fails.
    pub fn handshake(self) -> (r: Result<SslStream, HandshakeError>)
        requires
            self.0.wf(),
            self.0.ctx.state_raw == SESSION_STATE_HANDSHAKE,
            !(self.0.ctx.phase is Done),
        ensures
            handshake_outcome_wf(&r),
            outcome_matches_status(
                &r,
                drive_status(&self.0.ctx, self.0.conn.stream@.reads, self.0.conn.stream@.writes),
            ),
            outcome_config_frozen(&self.0.ctx, &r),
            (carried_conn(&r) matches Some(c) ==> ({
                &&& c.stream@.written == self.0.conn.stream@.written + drive_written_tail(
                    &self.0.ctx,
                    self.0.conn.stream@.writes,
                )
                &&& c.stream@.reads == drive_reads(
                    &self.0.ctx,
                    self.0.conn.stream@.reads,
                    self.0.conn.stream@.writes,
                )
                &&& c.stream@.writes == drive_writes(&self.0.ctx, self.0.conn.stream@.writes)
                &&& c.stream@.flushes == self.0.conn.stream@.flushes
                &&& c.err == drive_err(
                    &self.0.ctx,
                    self.0.conn.stream@.reads,
                    self.0.conn.stream@.writes,
                    self.0.conn.err,
                )
            })),
            (match self.0.ctx.phase {
                HandshakePhase::SendHello { sent } => write_blocked(self.0.conn.stream@.writes),
                HandshakePhase::Receive { prog } => read_blocked(self.0.conn.stream@.reads),
                _ => false,
            }) ==> (r matches Err(HandshakeError::WouldBlock(m)) && phase_view(&m.0.ctx.phase)
                == phase_view(&self.0.ctx.phase)),
    {
        let MidHandshakeSslStream(s) = self;
        let SslStream { mut ctx, mut conn } = s;
        let st = ctx.drive(&mut conn);
        narrow_outcome(SslStream { ctx, conn }, st)
    }

    /// Abandons the paused handshake: releases the suspended session state
    /// and reclaims the connection shim, handing the caller's stream back.
    /// Both were owned by this one value, so nothing else can still refer to
    /// them.
    pub fn abandon(self) -> (r: ScriptedStream)
        ensures
            r == self.0.conn.stream,
    {
        let MidHandshakeSslStream(s) = self;
        let SslStream { ctx: _, conn } = s;
        conn.stream
    }
}

} // verus!
