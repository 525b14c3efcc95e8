//! Byte-stream semantics over a connected session.
//!
//! An `SslStream` owns the session handle and the connection shim together:
//! both were created for one handshake attempt, and both are torn down
//! together, so neither the engine's back-reference nor the shim can outlive
//! the other. Reads deliver buffered plaintext first and otherwise pull one
//! record in through the shim; writes frame the payload as one record and
//! push it out through the shim; a non-success status always yields an I/O
//! error, never a partial silent success.

use vstd::prelude::*;

use crate::context::{PendingWrite, SslContext};
use crate::handshake::{prog_view, pull_model, RecordProgress, RecordProgressModel};
use crate::records::{be32_decode, frame, frame_spec, framed_chunks, MAX_RECORD_PAYLOAD};
use crate::session::{SESSION_STATE_ABORTED, SESSION_STATE_CLOSED, SESSION_STATE_CONNECTED};
use crate::shim::{read_func, shim_read_model, shim_status, shim_write_model, write_func, Connection};
use crate::status::{
    Error, IoError, ERR_SEC_IO, ERR_SEC_SUCCESS, ERR_SSL_CLOSED_ABORT, ERR_SSL_CLOSED_GRACEFUL,
    ERR_SSL_CLOSED_NO_NOTIFY, ERR_SSL_RECORD_OVERFLOW, ERR_SSL_WOULD_BLOCK,
};
use crate::stream::{ScriptedStream, StreamErrorKind};
use vstd::slice::{slice_subrange, slice_to_vec};

verus! {

/// A type implementing SSL/TLS encryption over an underlying stream: one
/// session handle and the connection shim it drives, owned together.
#[derive(Debug)]
pub struct SslStream {
    /// The session's context.
    pub ctx: SslContext,
    /// The connection shim: the caller's stream and the preserved error.
    pub conn: Connection,
}

impl SslStream {
    /// Well-formedness: the context is well-formed.
    pub open spec fn wf(&self) -> bool {
        self.ctx.wf()
    }

    /// Whether the handshake has completed and the stream is established.
    pub open spec fn established(&self) -> bool {
        &&& self.wf()
        &&& self.ctx.phase is Done
    }

    /// Returns a shared reference to the inner stream.
    pub fn get_ref(&self) -> (r: &ScriptedStream)
        ensures
            *r == self.conn.stream,
    {
        &self.conn.stream
    }

    /// Returns a mutable reference to the underlying stream.
    pub fn get_mut(&mut self) -> (r: &mut ScriptedStream)
        ensures
            *r == old(self).conn.stream,
            final(self).conn.stream == *final(r),
            final(self).ctx == old(self).ctx,
            final(self).conn.err == old(self).conn.err,
    {
        &mut self.conn.stream
    }

    /// Returns a shared reference to the `SslContext` of the stream.
    pub fn context(&self) -> (r: &SslContext)
        ensures
            *r == self.ctx,
    {
        &self.ctx
    }

    /// Returns a mutable reference to the `SslContext` of the stream.
    pub fn context_mut(&mut self) -> (r: &mut SslContext)
        ensures
            *r == old(self).ctx,
            final(self).ctx == *final(r),
            final(self).conn == old(self).conn,
    {
        &mut self.ctx
    }

    /// The error a failing operation surfaces: the preserved stream error
    /// when there is one (taking it), otherwise a generic failure
    /// synthesized from the engine's status code.
    fn get_error(&mut self, ret: i32) -> (r: IoError)
        ensures
            match old(self).conn.err {
                Some(k) => r == IoError::Stream(k),
                None => r == (IoError::Engine(Error { code: ret })),
            },
            final(self).conn.err is None,
            final(self).ctx == old(self).ctx,
            final(self).conn.stream == old(self).conn.stream,
    {
        match self.conn.err.take() {
            Some(k) => IoError::Stream(k),
            None => IoError::Engine(Error::new(ret)),
        }
    }
}


/// The first byte of the close-notify record's payload.
pub const CLOSE_BYTE: u8 = 21;

/// The plaintext received but not yet delivered to the caller.
pub open spec fn buffered(c: &SslContext) -> Seq<u8> {
    c.plaintext@.skip(c.plaintext_pos as int)
}

/// The error a failing established-stream operation surfaces: the stream
/// error the shim recorded during this operation; else one it had preserved
/// earlier; else a generic failure synthesized from the status code — never
/// fabricated stream-level detail.
pub open spec fn surfaced_error(
    recorded: Option<StreamErrorKind>,
    preserved: Option<StreamErrorKind>,
    st: i32,
) -> IoError {
    match recorded {
        Some(k) => IoError::Stream(k),
        None => match preserved {
            Some(k) => IoError::Stream(k),
            None => IoError::Engine(Error { code: st }),
        },
    }
}

/// Builds the close-notify record.
fn close_frame() -> (v: Vec<u8>)
    ensures
        v@ == frame_spec(seq![CLOSE_BYTE]),
        v@.len() == 5,
{
    let mut payload: Vec<u8> = Vec::new();
    payload.push(CLOSE_BYTE);
    proof {
        assert(payload@ =~= seq![CLOSE_BYTE]);
    }
    frame(&payload)
}

impl SslStream {
    /// Delivers up to `max` bytes of the buffered plaintext, in order.
    fn take_buffered(&mut self, max: usize) -> (v: Vec<u8>)
        requires
            old(self).established(),
            old(self).ctx.plaintext_pos < old(self).ctx.plaintext@.len(),
            max >= 1,
        ensures
            final(self).established(),
            v@ == if max as int <= buffered(&old(self).ctx).len() {
                buffered(&old(self).ctx).take(max as int)
            } else {
                buffered(&old(self).ctx)
            },
            1 <= v@.len() <= max,
            buffered(&final(self).ctx) == buffered(&old(self).ctx).skip(v@.len() as int),
            final(self).ctx == (SslContext {
                plaintext: final(self).ctx.plaintext,
                plaintext_pos: final(self).ctx.plaintext_pos,
                ..old(self).ctx
            }),
            final(self).conn == old(self).conn,
    {
        let avail = self.ctx.plaintext.len() - self.ctx.plaintext_pos;
        let n = if max <= avail {
            max
        } else {
            avail
        };
        let v = slice_to_vec(
            slice_subrange(
                self.ctx.plaintext.as_slice(),
                self.ctx.plaintext_pos,
                self.ctx.plaintext_pos + n,
            ),
        );
        self.ctx.plaintext_pos = self.ctx.plaintext_pos + n;
        proof {
            assert(v@ =~= if max as int <= buffered(&old(self).ctx).len() {
                buffered(&old(self).ctx).take(max as int)
            } else {
                buffered(&old(self).ctx)
            });
            assert(buffered(&self.ctx) =~= buffered(&old(self).ctx).skip(v@.len() as int));
        }
        v
    }

    /// Reads the remainder of an inbound record's payload through the shim,
    /// saving the progress on interruption.
    fn pull_body(&mut self, need: usize, got0: Vec<u8>) -> (r: (i32, Vec<u8>))
        requires
            old(self).established(),
            got0@.len() < need <= MAX_RECORD_PAYLOAD,
            old(self).ctx.rd_prog is None,
        ensures
            final(self).established(),
            final(self).ctx == (SslContext {
                rd_prog: final(self).ctx.rd_prog,
                ..old(self).ctx
            }),
            final(self).conn.stream@.writes == old(self).conn.stream@.writes,
            final(self).conn.stream@.written == old(self).conn.stream@.written,
            final(self).conn.stream@.flushes == old(self).conn.stream@.flushes,
            ({
                let m = pull_model(
                    RecordProgressModel::Body(need as int, got0@),
                    old(self).conn.stream@.reads,
                );
                &&& r.0 == m.status
                &&& final(self).conn.stream@.reads == m.reads
                &&& (m.status == ERR_SEC_SUCCESS ==> r.1@ == m.payload && final(self).ctx.rd_prog is None)
                &&& (m.status != ERR_SEC_SUCCESS ==> final(self).conn.err == (if m.err is Some {
                    m.err
                } else {
                    old(self).conn.err
                }))
                &&& (m.status == ERR_SEC_SUCCESS ==> final(self).conn.err == old(self).conn.err)
            }),
            r.0 != ERR_SEC_SUCCESS ==> r.1@.len() == 0,
            shim_status(r.0),
    {
        let mut got = got0;
        let (st, mut bytes) = read_func(&mut self.conn, need - got.len());
        got.append(&mut bytes);
        if st != ERR_SEC_SUCCESS {
            self.ctx.rd_prog = Some(RecordProgress::Body(need, got));
            return (st, Vec::new());
        }
        (ERR_SEC_SUCCESS, got)
    }

    /// Pulls one record in through the shim: the four length bytes, then the
    /// announced payload, rejecting an announced length over the record-size
    /// limit; an interrupted read saves its progress and is resumed by the
    /// next call.
    #[verifier::rlimit(60)]
    fn pull_record(&mut self) -> (r: (i32, Vec<u8>))
        requires
            old(self).established(),
        ensures
            final(self).established(),
            final(self).ctx == (SslContext {
                rd_prog: final(self).ctx.rd_prog,
                state_raw: final(self).ctx.state_raw,
                ..old(self).ctx
            }),
            final(self).conn.stream@.writes == old(self).conn.stream@.writes,
            final(self).conn.stream@.written == old(self).conn.stream@.written,
            final(self).conn.stream@.flushes == old(self).conn.stream@.flushes,
            shim_status(r.0) || r.0 == ERR_SSL_RECORD_OVERFLOW,
            r.0 != ERR_SEC_SUCCESS ==> r.1@.len() == 0,
            r.0 == ERR_SEC_SUCCESS ==> final(self).ctx.rd_prog is None,
            final(self).ctx.state_raw == (if r.0 == ERR_SSL_RECORD_OVERFLOW {
                SESSION_STATE_ABORTED
            } else {
                old(self).ctx.state_raw
            }),
            ({
                let p0 = (match old(self).ctx.rd_prog {
                    Some(p) => prog_view(&p),
                    None => RecordProgressModel::Header(Seq::empty()),
                });
                let m = pull_model(p0, old(self).conn.stream@.reads);
                &&& r.0 == m.status
                &&& final(self).conn.stream@.reads == m.reads
                &&& (m.status == ERR_SEC_SUCCESS ==> r.1@ == m.payload)
                &&& (m.status != ERR_SEC_SUCCESS ==> final(self).conn.err == (if m.err is Some {
                    m.err
                } else {
                    old(self).conn.err
                }))
                &&& (m.status == ERR_SEC_SUCCESS ==> final(self).conn.err == old(self).conn.err)
            }),
    {
        let prog = match self.ctx.rd_prog.take() {
            Some(p) => p,
            None => RecordProgress::Header(Vec::new()),
        };
        match prog {
            RecordProgress::Body(need, got) => self.pull_body(need, got),
            RecordProgress::Header(got0) => {
                let mut got = got0;
                let (st, mut bytes) = read_func(&mut self.conn, 4 - got.len());
                got.append(&mut bytes);
                if st != ERR_SEC_SUCCESS {
                    self.ctx.rd_prog = Some(RecordProgress::Header(got));
                    return (st, Vec::new());
                }
                let need64 = be32_decode(&got);
                if need64 > MAX_RECORD_PAYLOAD as u64 {
                    self.ctx.state_raw = SESSION_STATE_ABORTED;
                    return (ERR_SSL_RECORD_OVERFLOW, Vec::new());
                }
                let need = need64 as usize;
                if need == 0 {
                    return (ERR_SEC_SUCCESS, Vec::new());
                }
                let (st2, payload) = self.pull_body(need, Vec::new());
                proof {
                    assert(Seq::<u8>::empty() + shim_read_model(
                        self.conn.stream@.reads,
                        0,
                    ).taken =~= shim_read_model(self.conn.stream@.reads, 0).taken);
                }
                (st2, payload)
            },
        }
    }

    /// Reads up to `max` plaintext bytes from the session: buffered
    /// plaintext is delivered first; otherwise one record is pulled in
    /// through the connection shim (an interrupted pull resumes where it
    /// left off). A closed connection is reported as a zero-length read, and
    /// a failure carries the shim's preserved stream error when there is
    /// one. At least one byte must be asked for: the zero-length read is
    /// reserved to mean end-of-input.
    #[verifier::rlimit(100)]
    pub fn read(&mut self, max: usize) -> (r: Result<Vec<u8>, IoError>)
        requires
            old(self).established(),
            max >= 1,
        ensures
            final(self).established(),
            final(self).ctx == (SslContext {
                plaintext: final(self).ctx.plaintext,
                plaintext_pos: final(self).ctx.plaintext_pos,
                rd_prog: final(self).ctx.rd_prog,
                state_raw: final(self).ctx.state_raw,
                ..old(self).ctx
            }),
            final(self).conn.stream@.writes == old(self).conn.stream@.writes,
            final(self).conn.stream@.written == old(self).conn.stream@.written,
            final(self).conn.stream@.flushes == old(self).conn.stream@.flushes,
            (r matches Ok(v) ==> v@.len() <= max),
            (r matches Ok(v) && v@.len() > 0 ==> final(self).ctx.state_raw == old(self).ctx.state_raw),
            (r is Err ==> final(self).conn.err is None),
            buffered(&old(self).ctx).len() > 0 ==> (r matches Ok(v) && v@ == (if max as int
                <= buffered(&old(self).ctx).len() {
                buffered(&old(self).ctx).take(max as int)
            } else {
                buffered(&old(self).ctx)
            }) && buffered(&final(self).ctx) == buffered(&old(self).ctx).skip(v@.len() as int)
                && final(self).conn.stream@.reads == old(self).conn.stream@.reads),
            buffered(&old(self).ctx).len() == 0 && (old(self).ctx.state_raw
                == SESSION_STATE_CLOSED || old(self).ctx.state_raw == SESSION_STATE_ABORTED) ==> (
            r matches Ok(v) && v@.len() == 0),
            (buffered(&old(self).ctx).len() == 0 && old(self).ctx.state_raw
                == SESSION_STATE_CONNECTED) ==> ({
                let p0 = (match old(self).ctx.rd_prog {
                    Some(p) => prog_view(&p),
                    None => RecordProgressModel::Header(Seq::empty()),
                });
                let m = pull_model(p0, old(self).conn.stream@.reads);
                &&& final(self).conn.stream@.reads == m.reads
                &&& ((m.status == ERR_SSL_CLOSED_GRACEFUL || m.status == ERR_SSL_CLOSED_ABORT
                    || m.status == ERR_SSL_CLOSED_NO_NOTIFY) ==> (r matches Ok(v) && v@.len()
                    == 0 && final(self).ctx.state_raw == SESSION_STATE_CLOSED))
                &&& ((m.status == ERR_SSL_WOULD_BLOCK || m.status == ERR_SEC_IO) ==> (
                r matches Err(e) && e == surfaced_error(m.err, old(self).conn.err, m.status)))
                &&& (m.status == ERR_SSL_RECORD_OVERFLOW ==> (r matches Err(e) && e
                    == surfaced_error(m.err, old(self).conn.err, m.status) && final(self).ctx.state_raw == SESSION_STATE_ABORTED))
                &&& (m.status == ERR_SEC_SUCCESS && m.payload.len() == 0 ==> (r matches Ok(v)
                    && v@.len() == 0 && final(self).ctx.state_raw == old(self).ctx.state_raw))
                &&& (m.status == ERR_SEC_SUCCESS && m.payload.len() > 0 ==> (r matches Ok(v)
                    && v@ == (if max as int <= m.payload.len() {
                    m.payload.take(max as int)
                } else {
                    m.payload
                }) && buffered(&final(self).ctx) == m.payload.skip(v@.len() as int)))
            }),
    {
        if self.ctx.plaintext_pos < self.ctx.plaintext.len() {
            return Ok(self.take_buffered(max));
        }
        if self.ctx.state_raw == SESSION_STATE_CLOSED || self.ctx.state_raw
            == SESSION_STATE_ABORTED {
            return Ok(Vec::new());
        }
        let (st, payload) = self.pull_record();
        if st == ERR_SEC_SUCCESS {
            if payload.len() == 0 {
                return Ok(Vec::new());
            }
            self.ctx.plaintext = payload;
            self.ctx.plaintext_pos = 0;
            proof {
                assert(buffered(&self.ctx) =~= self.ctx.plaintext@);
            }
            return Ok(self.take_buffered(max));
        }
        if st == ERR_SSL_CLOSED_GRACEFUL || st == ERR_SSL_CLOSED_ABORT || st
            == ERR_SSL_CLOSED_NO_NOTIFY {
            self.ctx.state_raw = SESSION_STATE_CLOSED;
            return Ok(Vec::new());
        }
        Err(self.get_error(st))
    }

    /// Frames a payload of any length as one record per chunk of at most
    /// the record-size limit.
    fn build_frames(data: &Vec<u8>) -> (v: Vec<u8>)
        requires
            data@.len() > 0,
        ensures
            v@ == framed_chunks(data@),
    {
        let mut v: Vec<u8> = Vec::new();
        proof {
            assert(data@.skip(0) =~= data@);
            assert(Seq::<u8>::empty() + framed_chunks(data@) =~= framed_chunks(data@));
        }
        let mut i: usize = 0;
        while i < data.len()
            invariant
                i <= data@.len(),
                v@ + framed_chunks(data@.skip(i as int)) == framed_chunks(data@),
            decreases data@.len() - i,
        {
            let end = if data.len() - i <= MAX_RECORD_PAYLOAD {
                data.len()
            } else {
                i + MAX_RECORD_PAYLOAD
            };
            let chunk = slice_to_vec(slice_subrange(data.as_slice(), i, end));
            let ghost v0 = v@;
            let mut f = frame(&chunk);
            v.append(&mut f);
            proof {
                let tail = data@.skip(i as int);
                assert(chunk@ =~= data@.subrange(i as int, end as int));
                if end < data.len() {
                    assert(tail.take(MAX_RECORD_PAYLOAD as int) =~= chunk@);
                    assert(tail.skip(MAX_RECORD_PAYLOAD as int) =~= data@.skip(end as int));
                } else {
                    assert(tail =~= chunk@);
                    assert(data@.skip(end as int) =~= Seq::<u8>::empty());
                }
                assert((v0 + frame_spec(chunk@)) + framed_chunks(data@.skip(end as int)) =~= v0
                    + (frame_spec(chunk@) + framed_chunks(data@.skip(end as int))));
                assert(v0 + (frame_spec(chunk@) + framed_chunks(data@.skip(end as int))) =~= v0
                    + framed_chunks(tail));
            }
            i = end;
        }
        proof {
            assert(data@.skip(data@.len() as int) =~= Seq::<u8>::empty());
            assert(v@ + Seq::<u8>::empty() =~= v@);
        }
        v
    }

    /// Writes plaintext to the session: the payload is framed as records of
    /// at most the record-size limit and pushed out through the connection
    /// shim until the stream accepts them all; an empty write succeeds
    /// without touching the stream. A non-success status always yields an
    /// I/O error, never a partial silent success; the unaccepted remainder
    /// is retained and sent ahead of anything else by the next write, whose
    /// argument is therefore ignored until the retained bytes are out.
    #[verifier::rlimit(100)]
    pub fn write(&mut self, data: &Vec<u8>) -> (r: Result<usize, IoError>)
        requires
            old(self).established(),
        ensures
            final(self).established(),
            final(self).ctx == (SslContext {
                wr_pending: final(self).ctx.wr_pending,
                ..old(self).ctx
            }),
            final(self).conn.stream@.reads == old(self).conn.stream@.reads,
            final(self).conn.stream@.flushes == old(self).conn.stream@.flushes,
            (r is Err ==> final(self).conn.err is None),
            (r is Ok ==> final(self).conn.err == old(self).conn.err),
            (old(self).ctx.wr_pending is None && data@.len() == 0) ==> (r matches Ok(n) && n == 0
                && final(self).ctx == old(self).ctx && final(self).conn == old(self).conn),
            (old(self).ctx.wr_pending is None && data@.len() > 0) ==> ({
                let f = framed_chunks(data@);
                let m = shim_write_model(old(self).conn.stream@.writes, f.len() as int);
                &&& final(self).conn.stream@.written == old(self).conn.stream@.written
                    + f.subrange(0, m.sent)
                &&& final(self).conn.stream@.writes == m.writes
                &&& (m.status == ERR_SEC_SUCCESS ==> (r matches Ok(n) && n == data@.len() && final(self).ctx.wr_pending is None && final(self).conn.stream@.written == old(self).conn.stream@.written + f))
                &&& (m.status != ERR_SEC_SUCCESS ==> ({
                    &&& r matches Err(e) && e == surfaced_error(m.err, old(self).conn.err, m.status)
                    &&& final(self).ctx.wr_pending matches Some(p) && p.buf@ == f && p.sent
                        == m.sent && p.payload_len == data@.len()
                }))
            }),
            old(self).ctx.wr_pending matches Some(p0) ==> ({
                let m = shim_write_model(
                    old(self).conn.stream@.writes,
                    p0.buf@.len() - p0.sent,
                );
                &&& final(self).conn.stream@.written == old(self).conn.stream@.written
                    + p0.buf@.subrange(p0.sent as int, p0.sent + m.sent)
                &&& final(self).conn.stream@.writes == m.writes
                &&& (m.status == ERR_SEC_SUCCESS ==> (r matches Ok(n) && n == p0.payload_len
                    && final(self).ctx.wr_pending is None))
                &&& (m.status != ERR_SEC_SUCCESS ==> ({
                    &&& r matches Err(e) && e == surfaced_error(m.err, old(self).conn.err, m.status)
                    &&& final(self).ctx.wr_pending matches Some(p) && p.buf@ == p0.buf@
                        && p.sent == p0.sent + m.sent && p.payload_len == p0.payload_len
                }))
            }),
    {
        let (buf, sent, plen) = match self.ctx.wr_pending.take() {
            Some(p) => (p.buf, p.sent, p.payload_len),
            None => {
                if data.len() == 0 {
                    return Ok(0);
                }
                (Self::build_frames(data), 0, data.len())
            },
        };
        let buf_len = buf.len();
        let (st, n) = write_func(&mut self.conn, &buf, sent);
        if st == ERR_SEC_SUCCESS {
            proof {
                if old(self).ctx.wr_pending is None && data@.len() > 0 {
                    assert(old(self).conn.stream@.written + framed_chunks(data@).subrange(
                        0,
                        framed_chunks(data@).len() as int,
                    ) =~= old(self).conn.stream@.written + framed_chunks(data@));
                }
            }
            Ok(plen)
        } else {
            proof {
                assert(sent + n <= buf_len);
            }
            self.ctx.wr_pending = Some(PendingWrite { buf, sent: sent + n, payload_len: plen });
            Err(self.get_error(st))
        }
    }
    /// Flushes the underlying stream directly; the engine has no separate
    /// flush concept.
    pub fn flush(&mut self) -> (r: Result<(), IoError>)
        requires
            old(self).established(),
        ensures
            final(self).established(),
            r is Ok,
            final(self).ctx == old(self).ctx,
            final(self).conn.err == old(self).conn.err,
            final(self).conn.stream@.reads == old(self).conn.stream@.reads,
            final(self).conn.stream@.writes == old(self).conn.stream@.writes,
            final(self).conn.stream@.written == old(self).conn.stream@.written,
            final(self).conn.stream@.flushes == (if old(self).conn.stream@.flushes < u64::MAX
                as int {
                old(self).conn.stream@.flushes + 1
            } else {
                old(self).conn.stream@.flushes
            }),
    {
        self.conn.stream.flush();
        Ok(())
    }

    /// Tears the session down: signals an orderly close to the peer by
    /// sending the close-notify record (best effort), then reclaims the
    /// connection shim — exactly once, since this value was its only owner —
    /// and hands the caller's stream back.
    pub fn close(self) -> (r: ScriptedStream)
        requires
            self.established(),
        ensures
            r@.reads == self.conn.stream@.reads,
            r@.flushes == self.conn.stream@.flushes,
            ({
                let f = frame_spec(seq![CLOSE_BYTE]);
                let m = shim_write_model(self.conn.stream@.writes, f.len() as int);
                &&& r@.written == self.conn.stream@.written + f.subrange(0, m.sent)
                &&& r@.writes == m.writes
            }),
    {
        let mut this = self;
        let cl = close_frame();
        let (_st, _n) = write_func(&mut this.conn, &cl, 0);
        let SslStream { ctx: _, conn } = this;
        conn.stream
    }
}


/// What an established-stream read does with an engine status, as plain
/// data: deliver the plaintext, report end-of-input as a zero-length read,
/// or fail; the binding to a real engine takes its decision from this.
#[derive(Debug, Copy, Clone, PartialEq, Eq, Structural)]
pub enum ReadDisposition {
    /// Success: deliver the plaintext.
    Deliver,
    /// One of the closed statuses: report a zero-length read, never an
    /// error.
    EndOfInput,
    /// Anything else: surface an I/O error.
    Fail,
}

/// Classifies an engine read status: end-of-input is a zero-length read,
/// never an error.
pub fn classify_read_status(st: i32) -> (r: ReadDisposition)
    ensures
        r == ReadDisposition::Deliver <==> st == ERR_SEC_SUCCESS,
        r == ReadDisposition::EndOfInput <==> (st == ERR_SSL_CLOSED_GRACEFUL || st
            == ERR_SSL_CLOSED_ABORT || st == ERR_SSL_CLOSED_NO_NOTIFY),
        r == ReadDisposition::Fail <==> !(st == ERR_SEC_SUCCESS || st == ERR_SSL_CLOSED_GRACEFUL
            || st == ERR_SSL_CLOSED_ABORT || st == ERR_SSL_CLOSED_NO_NOTIFY),
{
    if st == ERR_SEC_SUCCESS {
        ReadDisposition::Deliver
    } else if st == ERR_SSL_CLOSED_GRACEFUL || st == ERR_SSL_CLOSED_ABORT || st
        == ERR_SSL_CLOSED_NO_NOTIFY {
        ReadDisposition::EndOfInput
    } else {
        ReadDisposition::Fail
    }
}

} // verus!
