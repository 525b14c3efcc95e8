//! Status codes in the engine's own vocabulary, and the error values that the
//! session layer surfaces to the caller.
//!
//! No raw engine status crosses into an application-visible result: every code
//! is either mapped to a pause, wrapped in [`Error`], or carried inside
//! [`IoError`].

use vstd::prelude::*;

verus! {

/// The engine reports success.
pub const ERR_SEC_SUCCESS: i32 = 0;
/// A generic I/O failure, synthesized when a stream error has no more precise
/// translation.
pub const ERR_SEC_IO: i32 = -36;
/// A parameter was invalid for the requested engine operation.
pub const ERR_SEC_PARAM: i32 = -50;
/// The operation is invalid in the session's current state, for example
/// asking for the peer's trust object while the session is still idle.
pub const ERR_SEC_BAD_REQ: i32 = -909;
/// The underlying stream had no data or space available; the operation is
/// resumable.
pub const ERR_SSL_WOULD_BLOCK: i32 = -9803;
/// The peer closed the session gracefully.
pub const ERR_SSL_CLOSED_GRACEFUL: i32 = -9805;
/// The connection was torn down abruptly (reset-like).
pub const ERR_SSL_CLOSED_ABORT: i32 = -9806;
/// The peer's presented domain name does not match the configured peer
/// domain name.
pub const ERR_SSL_HOST_NAME_MISMATCH: i32 = -9843;
/// The stream reached end-of-input without a close notification from the
/// peer.
pub const ERR_SSL_CLOSED_NO_NOTIFY: i32 = -9816;
/// An inbound record announced a length over the record-size limit.
pub const ERR_SSL_RECORD_OVERFLOW: i32 = -9847;
/// Peer authentication has completed and the caller asked to break there.
pub const ERR_SSL_PEER_AUTH_COMPLETED: i32 = -9841;
/// The peer requested a client certificate and the caller asked to break
/// there.
pub const ERR_SSL_CLIENT_CERT_REQUESTED: i32 = -9842;

/// An error reported by the engine or by a configuration operation, carrying
/// the engine's status code.
#[derive(Debug, Clone, Copy, PartialEq, Eq, Structural)]
pub struct Error {
    pub code: i32,
}

impl Error {
    /// Wraps a raw engine status code.
    pub fn new(code: i32) -> (e: Error)
        ensures
            e.code == code,
    {
        Error { code }
    }

    /// The raw engine status code carried by this error.
    pub fn code(&self) -> (c: i32)
        ensures
            c == self.code,
    {
        self.code
    }
}

/// An I/O failure surfaced by an established stream. When the connection shim
/// recorded the stream's own error it is preserved and handed back; otherwise
/// a generic failure is synthesized from the engine's status code.
#[derive(Debug, Clone, Copy, PartialEq, Eq, Structural)]
pub enum IoError {
    /// The original, untranslated error observed on the caller's stream.
    Stream(crate::stream::StreamErrorKind),
    /// A failure synthesized from an engine status that had no recorded
    /// stream-level cause.
    Engine(Error),
}

} // verus!
