//! The caller-supplied duplex byte stream, represented by a scripted double.
//!
//! The session layer is generic in behaviour over any stream that reads and
//! writes bytes and may block, close, or fail at any point. A
//! [`ScriptedStream`] fixes that behaviour by an explicit event script, so
//! every path through the shim and the handshake is driven by plain data and
//! is fully verified; the binding to a real socket lives outside the verified
//! library.

use vstd::prelude::*;

verus! {

/// The kind of an error reported by the caller's stream, mirroring the
/// stream-level error vocabulary that the status translation distinguishes.
#[derive(Debug, Copy, Clone, PartialEq, Eq, Structural)]
pub enum StreamErrorKind {
    /// The resource was not found; treated as a graceful close.
    NotFound,
    /// The connection was reset by the peer.
    ConnectionReset,
    /// The stream has no data or space available right now.
    WouldBlock,
    /// Any other I/O error.
    Other,
}

/// One scripted outcome of a read from the caller's stream.
#[derive(Debug)]
pub enum ReadEvent {
    /// The stream delivers these bytes (possibly fewer than asked for). A
    /// chunk larger than one request is delivered across several reads.
    Data(Vec<u8>),
    /// The stream reports end-of-input.
    Eof,
    /// The stream reports an error.
    Error(StreamErrorKind),
}

/// The mathematical shape of a [`ReadEvent`].
pub enum ReadEventModel {
    /// The stream delivers these bytes.
    Data(Seq<u8>),
    /// The stream reports end-of-input.
    Eof,
    /// The stream reports an error.
    Error(StreamErrorKind),
}

impl View for ReadEvent {
    type V = ReadEventModel;

    open spec fn view(&self) -> ReadEventModel {
        match self {
            ReadEvent::Data(v) => ReadEventModel::Data(v@),
            ReadEvent::Eof => ReadEventModel::Eof,
            ReadEvent::Error(k) => ReadEventModel::Error(*k),
        }
    }
}

/// One scripted outcome of a write to the caller's stream.
#[derive(Debug, Copy, Clone, PartialEq, Eq, Structural)]
pub enum WriteEvent {
    /// The stream accepts up to this many bytes.
    Accept(usize),
    /// The stream accepts nothing (a zero-length write).
    Zero,
    /// The stream reports an error.
    Error(StreamErrorKind),
}

/// The mathematical shape of a [`ScriptedStream`].
pub struct StreamModel {
    /// The read outcomes still to come, front first.
    pub reads: Seq<ReadEventModel>,
    /// The write outcomes still to come, front first; an exhausted script
    /// accepts every write in full.
    pub writes: Seq<WriteEvent>,
    /// Every byte the stream has accepted so far, in order.
    pub written: Seq<u8>,
    /// How many times the stream has been flushed.
    pub flushes: int,
}

/// What one read returns and what it leaves of the read script.
pub struct ReadStepModel {
    /// The bytes delivered, or the error reported. An empty delivery means
    /// end-of-input.
    pub outcome: Result<Seq<u8>, StreamErrorKind>,
    /// The read events that remain.
    pub reads: Seq<ReadEventModel>,
}

/// The outcome of one read of at most `max` bytes against the script `evs`:
/// an exhausted script reads as end-of-input; a data chunk is delivered up to
/// `max` bytes, the remainder staying at the front of the script.
pub open spec fn read_step(evs: Seq<ReadEventModel>, max: int) -> ReadStepModel {
    if evs.len() == 0 {
        ReadStepModel { outcome: Ok(Seq::empty()), reads: evs }
    } else {
        match evs[0] {
            ReadEventModel::Eof => ReadStepModel { outcome: Ok(Seq::empty()), reads: evs.skip(1) },
            ReadEventModel::Error(k) => ReadStepModel { outcome: Err(k), reads: evs.skip(1) },
            ReadEventModel::Data(c) => {
                if c.len() <= max {
                    ReadStepModel { outcome: Ok(c), reads: evs.skip(1) }
                } else {
                    ReadStepModel {
                        outcome: Ok(c.take(max)),
                        reads: seq![ReadEventModel::Data(c.skip(max))] + evs.skip(1),
                    }
                }
            },
        }
    }
}

/// What one write returns and what it leaves of the write script.
pub struct WriteStepModel {
    /// How many bytes were accepted, or the error reported. Zero accepted
    /// bytes mean the stream took nothing.
    pub outcome: Result<int, StreamErrorKind>,
    /// The write events that remain.
    pub writes: Seq<WriteEvent>,
}

/// The outcome of one write of `rem` remaining bytes against the script
/// `evs`: an exhausted script accepts everything.
pub open spec fn write_step(evs: Seq<WriteEvent>, rem: int) -> WriteStepModel {
    if evs.len() == 0 {
        WriteStepModel { outcome: Ok(rem), writes: evs }
    } else {
        match evs[0] {
            WriteEvent::Zero => WriteStepModel { outcome: Ok(0), writes: evs.skip(1) },
            WriteEvent::Error(k) => WriteStepModel { outcome: Err(k), writes: evs.skip(1) },
            WriteEvent::Accept(cap) => WriteStepModel {
                outcome: Ok(if cap <= rem { cap as int } else { rem }),
                writes: evs.skip(1),
            },
        }
    }
}

/// A duplex byte stream whose behaviour is fixed by an explicit script of
/// read and write outcomes. It stands for the caller-supplied connection:
/// reads consume the read script, writes consume the write script and append
/// the accepted bytes to `written`.
#[derive(Debug)]
pub struct ScriptedStream {
    /// The read outcomes still to come, front first.
    pub reads: Vec<ReadEvent>,
    /// The write outcomes still to come, front first.
    pub writes: Vec<WriteEvent>,
    /// Every byte accepted so far, in order.
    pub written: Vec<u8>,
    /// How many times the stream has been flushed.
    pub flushes: u64,
}

impl View for ScriptedStream {
    type V = StreamModel;

    open spec fn view(&self) -> StreamModel {
        StreamModel {
            reads: self.reads@.map_values(|e: ReadEvent| e@),
            writes: self.writes@,
            written: self.written@,
            flushes: self.flushes as int,
        }
    }
}

impl ScriptedStream {
    /// A stream that will behave as the two scripts say, with nothing written
    /// or flushed yet.
    pub fn new(reads: Vec<ReadEvent>, writes: Vec<WriteEvent>) -> (s: ScriptedStream)
        ensures
            s@.reads == reads@.map_values(|e: ReadEvent| e@),
            s@.writes == writes@,
            s@.written == Seq::<u8>::empty(),
            s@.flushes == 0,
    {
        let s = ScriptedStream { reads, writes, written: Vec::new(), flushes: 0 };
        proof {
            assert(s@.written =~= Seq::<u8>::empty());
        }
        s
    }

    /// One read of at most `max` bytes: consumes the front of the read
    /// script exactly as [`read_step`] says.
    pub fn read(&mut self, max: usize) -> (r: Result<Vec<u8>, StreamErrorKind>)
        requires
            max >= 1,
        ensures
            ({
                let m = read_step(old(self)@.reads, max as int);
                &&& final(self)@.reads == m.reads
                &&& final(self)@.writes == old(self)@.writes
                &&& final(self)@.written == old(self)@.written
                &&& final(self)@.flushes == old(self)@.flushes
                &&& match (r, m.outcome) {
                    (Ok(v), Ok(s)) => v@ == s && v@.len() <= max,
                    (Err(k), Err(k2)) => k == k2,
                    _ => false,
                }
            }),
    {
        if self.reads.len() == 0 {
            return Ok(Vec::new());
        }
        let ev = self.reads.remove(0);
        proof {
            assert(self.reads@.map_values(|e: ReadEvent| e@) =~= old(self)@.reads.skip(1));
        }
        match ev {
            ReadEvent::Eof => Ok(Vec::new()),
            ReadEvent::Error(k) => Err(k),
            ReadEvent::Data(mut c) => {
                if c.len() <= max {
                    Ok(c)
                } else {
                    let tail = c.split_off(max);
                    self.reads.insert(0, ReadEvent::Data(tail));
                    proof {
                        assert(self.reads@.map_values(|e: ReadEvent| e@) =~= seq![
                            ReadEventModel::Data(old(self)@.reads[0]->Data_0.skip(max as int)),
                        ] + old(self)@.reads.skip(1));
                    }
                    Ok(c)
                }
            },
        }
    }

    /// One write of the bytes of `data` from position `from` on: consumes the
    /// front of the write script exactly as [`write_step`] says, and appends
    /// the accepted bytes to `written`.
    pub fn write(&mut self, data: &Vec<u8>, from: usize) -> (r: Result<usize, StreamErrorKind>)
        requires
            from < data.len(),
        ensures
            ({
                let m = write_step(old(self)@.writes, data@.len() - from);
                &&& final(self)@.reads == old(self)@.reads
                &&& final(self)@.writes == m.writes
                &&& final(self)@.flushes == old(self)@.flushes
                &&& match (r, m.outcome) {
                    (Ok(n), Ok(nm)) => n == nm && n <= data@.len() - from
                        && final(self)@.written == old(self)@.written + data@.subrange(
                        from as int,
                        from + nm,
                    ),
                    (Err(k), Err(k2)) => k == k2 && final(self)@.written == old(self)@.written,
                    _ => false,
                }
            }),
    {
        let rem = data.len() - from;
        if self.writes.len() == 0 {
            self.push_range(data, from, data.len());
            return Ok(rem);
        }
        let ev = self.writes.remove(0);
        proof {
            assert(self.writes@ =~= old(self)@.writes.skip(1));
        }
        match ev {
            WriteEvent::Zero => {
                proof {
                    assert(self@.written =~= old(self)@.written + data@.subrange(
                        from as int,
                        from as int,
                    ));
                }
                Ok(0)
            },
            WriteEvent::Error(k) => Err(k),
            WriteEvent::Accept(cap) => {
                let n = if cap <= rem {
                    cap
                } else {
                    rem
                };
                self.push_range(data, from, from + n);
                Ok(n)
            },
        }
    }

    /// Appends `src[start..end]` to `written`.
    fn push_range(&mut self, src: &Vec<u8>, start: usize, end: usize)
        requires
            start <= end <= src@.len(),
        ensures
            final(self)@.written == old(self)@.written + src@.subrange(start as int, end as int),
            final(self)@.reads == old(self)@.reads,
            final(self)@.writes == old(self)@.writes,
            final(self)@.flushes == old(self)@.flushes,
    {
        let mut i: usize = start;
        while i < end
            invariant
                start <= i <= end <= src@.len(),
                self.reads == old(self).reads,
                self.writes == old(self).writes,
                self.flushes == old(self).flushes,
                self.written@ == old(self).written@ + src@.subrange(start as int, i as int),
            decreases end - i,
        {
            self.written.push(src[i]);
            proof {
                assert(self.written@ =~= old(self).written@ + src@.subrange(
                    start as int,
                    i + 1,
                ));
            }
            i = i + 1;
        }
    }

    /// One flush. The double cannot fail to flush; it only counts the call
    /// (saturating at the counter's capacity).
    pub fn flush(&mut self)
        ensures
            final(self)@.reads == old(self)@.reads,
            final(self)@.writes == old(self)@.writes,
            final(self)@.written == old(self)@.written,
            final(self)@.flushes == if old(self)@.flushes < u64::MAX as int {
                old(self)@.flushes + 1
            } else {
                old(self)@.flushes
            },
    {
        if self.flushes < u64::MAX {
            self.flushes = self.flushes + 1;
        }
    }
}

} // verus!
