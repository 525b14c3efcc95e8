//! A verified model of a TLS/DTLS session layer driven over a caller-supplied
//! byte stream.
//!
//! The native TLS engine of the operating system exposes "stop and tell me
//! why" semantics: a single-step handshake operation that either completes,
//! pauses for caller action, or fails, and read/write callbacks through which
//! it moves ciphertext against the caller's stream. This crate verifies the
//! session layer that sits on top of such an engine:
//!
//! * the connection shim that adapts a possibly non-blocking stream to the
//!   engine's all-or-nothing read/write contract ([`shim`]);
//! * the translation between stream outcomes and the engine's status
//!   vocabulary ([`shim`], [`status`]);
//! * the handshake state machine that narrows every interruption down to
//!   success, three resumable pauses, or a terminal failure ([`handshake`]);
//! * the session configuration surface and its state ([`context`]);
//! * byte-stream reads and writes over an established session, with record
//!   framing ([`ssl_stream`], [`records`]).
//!
//! The engine's cryptography and certificate evaluation are out of scope; the
//! engine's observable behaviour at this interface is modelled deterministically
//! so that every decision the session layer takes is verified. The caller's
//! stream is represented by a scripted double ([`stream::ScriptedStream`])
//! whose behaviour is fixed by an explicit event script, which is also what
//! drives the tests.

mod context;
mod handshake;
mod records;
mod session;
mod shim;
mod ssl_stream;
mod status;
mod stream;

pub use context::{peer_trust_allowed, PendingWrite, SecCertificate, SecIdentity, SecTrust, SslContext};
pub use handshake::{
    classify_handshake_status, HandshakeDisposition, HandshakeError, HandshakePhase,
    MidHandshakeSslStream, RecordProgress,
};
pub use records::{be32_decode, be32_encode, frame, lemma_frame_round_trip};
pub use session::{
    ConnectionType, ProtocolSide, SessionState, SslAuthenticate, SslClientCertificateState,
    SslProtocol,
};
pub use shim::{read_func, shim_step, translate_err, write_func, Connection};
pub use ssl_stream::{classify_read_status, ReadDisposition, SslStream};
pub use status::{Error, IoError};
pub use stream::{ReadEvent, ScriptedStream, StreamErrorKind, WriteEvent};
