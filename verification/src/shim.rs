//! The connection shim: the two entry points the engine drives to move
//! ciphertext against the caller's stream, and the status translation.
//!
//! The engine expects either complete delivery of the requested length or a
//! definitive short/error/blocked status — it cannot resume a partial fill
//! across calls — so the shim accumulates partial reads and writes itself.
//! The original, untranslated stream error is preserved on the shim so that a
//! later failing operation can hand the caller the real underlying error
//! instead of an opaque translated code.

use vstd::prelude::*;

use crate::status::{
    ERR_SEC_IO, ERR_SEC_SUCCESS, ERR_SSL_CLOSED_ABORT, ERR_SSL_CLOSED_GRACEFUL,
    ERR_SSL_CLOSED_NO_NOTIFY, ERR_SSL_WOULD_BLOCK,
};
use crate::stream::{
    read_step, write_step, ReadEventModel, ScriptedStream, StreamErrorKind, WriteEvent,
};

verus! {

/// The state the engine calls back into: the caller's stream, exclusively
/// owned, and the most recent unrecoverable error observed on it.
#[derive(Debug)]
pub struct Connection {
    /// The caller's stream.
    pub stream: ScriptedStream,
    /// The most recent stream error, preserved untranslated.
    pub err: Option<StreamErrorKind>,
}

/// The engine status that a stream error translates to.
pub open spec fn translate_err_spec(kind: StreamErrorKind) -> i32 {
    match kind {
        StreamErrorKind::NotFound => ERR_SSL_CLOSED_GRACEFUL,
        StreamErrorKind::ConnectionReset => ERR_SSL_CLOSED_ABORT,
        StreamErrorKind::WouldBlock => ERR_SSL_WOULD_BLOCK,
        StreamErrorKind::Other => ERR_SEC_IO,
    }
}

/// Maps a stream error to the engine's status vocabulary: end-of-input to
/// closed-gracefully, a reset to closed-abruptly, not-ready to would-block,
/// and anything else to a generic I/O failure. Never reports success.
pub fn translate_err(kind: StreamErrorKind) -> (status: i32)
    ensures
        status == translate_err_spec(kind),
        status != ERR_SEC_SUCCESS,
{
    match kind {
        StreamErrorKind::NotFound => ERR_SSL_CLOSED_GRACEFUL,
        StreamErrorKind::ConnectionReset => ERR_SSL_CLOSED_ABORT,
        StreamErrorKind::WouldBlock => ERR_SSL_WOULD_BLOCK,
        StreamErrorKind::Other => ERR_SEC_IO,
    }
}

/// The statuses the shim can hand the engine: success, closed without
/// notify, or a translated stream error.
pub open spec fn shim_status(st: i32) -> bool {
    ||| st == ERR_SEC_SUCCESS
    ||| st == ERR_SSL_CLOSED_NO_NOTIFY
    ||| st == ERR_SSL_CLOSED_GRACEFUL
    ||| st == ERR_SSL_CLOSED_ABORT
    ||| st == ERR_SSL_WOULD_BLOCK
    ||| st == ERR_SEC_IO
}

/// What the inbound entry point does to a read script: the status reported,
/// the bytes transferred, the events left, and the error preserved.
pub struct ShimReadModel {
    /// The status handed to the engine.
    pub status: i32,
    /// The bytes transferred, in order, without loss or duplication.
    pub taken: Seq<u8>,
    /// The read events that remain.
    pub reads: Seq<ReadEventModel>,
    /// The stream error recorded on the shim, if the loop ended on one.
    pub err: Option<StreamErrorKind>,
}

/// The inbound accumulation loop as a function of the script: reads are
/// issued until `want` bytes are together, the stream reports end-of-input
/// (closed-without-notify), or it reports an error (translated, and
/// preserved).
pub open spec fn shim_read_model(evs: Seq<ReadEventModel>, want: int) -> ShimReadModel
    decreases evs.len(),
{
    if want <= 0 {
        ShimReadModel { status: ERR_SEC_SUCCESS, taken: Seq::empty(), reads: evs, err: None }
    } else {
        let step = read_step(evs, want);
        match step.outcome {
            Err(k) => ShimReadModel {
                status: translate_err_spec(k),
                taken: Seq::empty(),
                reads: step.reads,
                err: Some(k),
            },
            Ok(chunk) => {
                if chunk.len() == 0 {
                    ShimReadModel {
                        status: ERR_SSL_CLOSED_NO_NOTIFY,
                        taken: Seq::empty(),
                        reads: step.reads,
                        err: None,
                    }
                } else if chunk.len() == want {
                    ShimReadModel {
                        status: ERR_SEC_SUCCESS,
                        taken: chunk,
                        reads: step.reads,
                        err: None,
                    }
                } else {
                    let rest = shim_read_model(step.reads, want - chunk.len());
                    ShimReadModel {
                        status: rest.status,
                        taken: chunk + rest.taken,
                        reads: rest.reads,
                        err: rest.err,
                    }
                }
            },
        }
    }
}

/// The inbound entry point: pulls exactly `want` bytes in from the caller's
/// stream, or as many as it could together with the definitive status, as
/// [`shim_read_model`] says. Success is reported if and only if the full
/// length was transferred.
pub fn read_func(conn: &mut Connection, want: usize) -> (r: (i32, Vec<u8>))
    ensures
        ({
            let m = shim_read_model(old(conn).stream@.reads, want as int);
            &&& r.0 == m.status
            &&& r.1@ == m.taken
            &&& final(conn).stream@.reads == m.reads
            &&& final(conn).stream@.writes == old(conn).stream@.writes
            &&& final(conn).stream@.written == old(conn).stream@.written
            &&& final(conn).stream@.flushes == old(conn).stream@.flushes
            &&& final(conn).err == if m.err is Some {
                m.err
            } else {
                old(conn).err
            }
        }),
        r.1@.len() <= want,
        r.0 == ERR_SEC_SUCCESS <==> r.1@.len() == want,
        shim_status(r.0),
        r.0 == ERR_SEC_SUCCESS ==> final(conn).err == old(conn).err,
    decreases want,
{
    if want == 0 {
        return (ERR_SEC_SUCCESS, Vec::new());
    }
    match conn.stream.read(want) {
        Err(k) => {
            conn.err = Some(k);
            (translate_err(k), Vec::new())
        },
        Ok(mut v) => {
            if v.len() == 0 {
                (ERR_SSL_CLOSED_NO_NOTIFY, Vec::new())
            } else if v.len() == want {
                (ERR_SEC_SUCCESS, v)
            } else {
                let more = want - v.len();
                let (st, mut rest) = read_func(conn, more);
                v.append(&mut rest);
                (st, v)
            }
        },
    }
}

/// What the outbound entry point does to a write script: the status
/// reported, how many bytes the stream accepted, the events left, and the
/// error preserved.
pub struct ShimWriteModel {
    /// The status handed to the engine.
    pub status: i32,
    /// How many bytes the stream accepted.
    pub sent: int,
    /// The write events that remain.
    pub writes: Seq<WriteEvent>,
    /// The stream error recorded on the shim, if the loop ended on one.
    pub err: Option<StreamErrorKind>,
}

/// The outbound accumulation loop as a function of the script: writes are
/// issued until `rem` bytes are accepted, the stream accepts nothing
/// (closed-without-notify), or it reports an error (translated, and
/// preserved).
pub open spec fn shim_write_model(evs: Seq<WriteEvent>, rem: int) -> ShimWriteModel
    decreases evs.len(),
{
    if rem <= 0 {
        ShimWriteModel { status: ERR_SEC_SUCCESS, sent: 0, writes: evs, err: None }
    } else {
        let step = write_step(evs, rem);
        match step.outcome {
            Err(k) => ShimWriteModel {
                status: translate_err_spec(k),
                sent: 0,
                writes: step.writes,
                err: Some(k),
            },
            Ok(n) => {
                if n == 0 {
                    ShimWriteModel {
                        status: ERR_SSL_CLOSED_NO_NOTIFY,
                        sent: 0,
                        writes: step.writes,
                        err: None,
                    }
                } else if n == rem {
                    ShimWriteModel { status: ERR_SEC_SUCCESS, sent: rem, writes: step.writes, err: None }
                } else {
                    let rest = shim_write_model(step.writes, rem - n);
                    ShimWriteModel {
                        status: rest.status,
                        sent: n + rest.sent,
                        writes: rest.writes,
                        err: rest.err,
                    }
                }
            },
        }
    }
}

/// The outbound entry point: pushes `data[from..]` out to the caller's
/// stream, looping until the full buffer is sent or an error or zero-length
/// write occurs, as [`shim_write_model`] says. The bytes the stream accepted
/// are exactly `data[from..from + r.1]`, and success is reported if and only
/// if everything was accepted.
pub fn write_func(conn: &mut Connection, data: &Vec<u8>, from: usize) -> (r: (i32, usize))
    requires
        from <= data@.len(),
    ensures
        ({
            let m = shim_write_model(old(conn).stream@.writes, data@.len() - from);
            &&& r.0 == m.status
            &&& r.1 == m.sent
            &&& final(conn).stream@.writes == m.writes
            &&& final(conn).stream@.written == old(conn).stream@.written + data@.subrange(
                from as int,
                from + m.sent,
            )
            &&& final(conn).stream@.reads == old(conn).stream@.reads
            &&& final(conn).stream@.flushes == old(conn).stream@.flushes
            &&& final(conn).err == if m.err is Some {
                m.err
            } else {
                old(conn).err
            }
        }),
        r.1 <= data@.len() - from,
        r.0 == ERR_SEC_SUCCESS <==> from + r.1 == data@.len(),
        shim_status(r.0),
        r.0 == ERR_SEC_SUCCESS ==> final(conn).err == old(conn).err,
    decreases data@.len() - from,
{
    if from == data.len() {
        proof {
            assert(old(conn).stream@.written + data@.subrange(from as int, from as int) =~= old(
                conn,
            ).stream@.written);
        }
        return (ERR_SEC_SUCCESS, 0);
    }
    match conn.stream.write(data, from) {
        Err(k) => {
            conn.err = Some(k);
            proof {
                assert(conn.stream@.written + data@.subrange(from as int, from as int) =~= conn
                    .stream@.written);
            }
            (translate_err(k), 0)
        },
        Ok(n) => {
            if n == 0 {
                proof {
                    assert(conn.stream@.written + data@.subrange(from as int, from as int)
                        =~= conn.stream@.written);
                }
                (ERR_SSL_CLOSED_NO_NOTIFY, 0)
            } else if from + n == data.len() {
                (ERR_SEC_SUCCESS, n)
            } else {
                let (st, m2) = write_func(conn, data, from + n);
                proof {
                    assert(old(conn).stream@.written + data@.subrange(from as int, from + n)
                        + data@.subrange(from + n, from + n + m2) =~= old(conn).stream@.written
                        + data@.subrange(from as int, from + n + m2));
                }
                (st, n + m2)
            }
        },
    }
}


/// The decision the accumulation loops take after one stream operation:
/// keep looping while bytes move, stop with closed-without-notify on a
/// zero-length transfer, stop with the translated status on an error.
pub fn shim_step(progress: Result<usize, StreamErrorKind>) -> (r: Option<i32>)
    ensures
        (progress matches Ok(n) && n > 0) ==> r is None,
        (progress matches Ok(n) && n == 0) ==> r == Some(ERR_SSL_CLOSED_NO_NOTIFY),
        (progress matches Err(k) ==> r == Some(translate_err_spec(k))),
{
    match progress {
        Ok(0) => Some(ERR_SSL_CLOSED_NO_NOTIFY),
        Ok(_) => None,
        Err(k) => Some(translate_err(k)),
    }
}

} // verus!
