use secure_transport::{
    be32_decode, be32_encode, frame, read_func, shim_step, translate_err, write_func, Connection,
    ReadEvent, ScriptedStream, StreamErrorKind, WriteEvent,
};

fn conn(reads: Vec<ReadEvent>, writes: Vec<WriteEvent>) -> Connection {
    Connection { stream: ScriptedStream::new(reads, writes), err: None }
}

#[test]
fn translation_table() {
    assert_eq!(translate_err(StreamErrorKind::NotFound), -9805);
    assert_eq!(translate_err(StreamErrorKind::ConnectionReset), -9806);
    assert_eq!(translate_err(StreamErrorKind::WouldBlock), -9803);
    assert_eq!(translate_err(StreamErrorKind::Other), -36);
}

#[test]
fn read_accumulates_across_short_reads() {
    let mut c = conn(
        vec![
            ReadEvent::Data(vec![1, 2]),
            ReadEvent::Data(vec![3]),
            ReadEvent::Data(vec![4, 5, 6, 7]),
        ],
        vec![],
    );
    let (st, bytes) = read_func(&mut c, 5);
    assert_eq!(st, 0);
    assert_eq!(bytes, vec![1, 2, 3, 4, 5]);
    let (st2, bytes2) = read_func(&mut c, 2);
    assert_eq!(st2, 0);
    assert_eq!(bytes2, vec![6, 7]);
    assert!(c.err.is_none());
}

#[test]
fn read_reports_closed_without_notify_on_eof() {
    let mut c = conn(vec![ReadEvent::Data(vec![9]), ReadEvent::Eof], vec![]);
    let (st, bytes) = read_func(&mut c, 3);
    assert_eq!(st, -9816);
    assert_eq!(bytes, vec![9]);
    assert!(c.err.is_none());
}

#[test]
fn read_preserves_original_error() {
    let mut c = conn(
        vec![ReadEvent::Data(vec![8]), ReadEvent::Error(StreamErrorKind::ConnectionReset)],
        vec![],
    );
    let (st, bytes) = read_func(&mut c, 4);
    assert_eq!(st, -9806);
    assert_eq!(bytes, vec![8]);
    assert_eq!(c.err, Some(StreamErrorKind::ConnectionReset));
}

#[test]
fn read_reports_would_block() {
    let mut c = conn(vec![ReadEvent::Error(StreamErrorKind::WouldBlock)], vec![]);
    let (st, bytes) = read_func(&mut c, 1);
    assert_eq!(st, -9803);
    assert!(bytes.is_empty());
    assert_eq!(c.err, Some(StreamErrorKind::WouldBlock));
}

#[test]
fn write_accumulates_across_partial_writes() {
    let data = vec![10, 11, 12, 13, 14];
    let mut c = conn(vec![], vec![WriteEvent::Accept(2), WriteEvent::Accept(9)]);
    let (st, n) = write_func(&mut c, &data, 0);
    assert_eq!(st, 0);
    assert_eq!(n, 5);
    assert_eq!(c.stream.written, data);
}

#[test]
fn write_reports_zero_write_as_closed() {
    let data = vec![1, 2, 3];
    let mut c = conn(vec![], vec![WriteEvent::Zero]);
    let (st, n) = write_func(&mut c, &data, 0);
    assert_eq!(st, -9816);
    assert_eq!(n, 0);
    assert!(c.stream.written.is_empty());
}

#[test]
fn write_translates_and_preserves_error() {
    let data = vec![1, 2, 3];
    let mut c = conn(
        vec![],
        vec![WriteEvent::Accept(1), WriteEvent::Error(StreamErrorKind::Other)],
    );
    let (st, n) = write_func(&mut c, &data, 0);
    assert_eq!(st, -36);
    assert_eq!(n, 1);
    assert_eq!(c.stream.written, vec![1]);
    assert_eq!(c.err, Some(StreamErrorKind::Other));
}

#[test]
fn exhausted_write_script_accepts_everything() {
    let data = vec![7, 7, 7];
    let mut c = conn(vec![], vec![]);
    let (st, n) = write_func(&mut c, &data, 1);
    assert_eq!(st, 0);
    assert_eq!(n, 2);
    assert_eq!(c.stream.written, vec![7, 7]);
}

#[test]
fn be32_encoding() {
    assert_eq!(be32_encode(0x01020304), vec![1, 2, 3, 4]);
    assert_eq!(be32_encode(0), vec![0, 0, 0, 0]);
    assert_eq!(be32_encode(u32::MAX), vec![255, 255, 255, 255]);
    assert_eq!(be32_decode(&vec![1, 2, 3, 4]), 0x01020304);
    assert_eq!(be32_decode(&be32_encode(65536)), 65536);
}

#[test]
fn framing_prefixes_the_length() {
    let payload = vec![22, 1, 2];
    assert_eq!(frame(&payload), vec![0, 0, 0, 3, 22, 1, 2]);
    assert_eq!(frame(&Vec::new()), vec![0, 0, 0, 0]);
}

#[test]
fn shim_step_decisions() {
    assert_eq!(shim_step(Ok(3)), None);
    assert_eq!(shim_step(Ok(0)), Some(-9816));
    assert_eq!(shim_step(Err(StreamErrorKind::WouldBlock)), Some(-9803));
    assert_eq!(shim_step(Err(StreamErrorKind::NotFound)), Some(-9805));
    assert_eq!(shim_step(Err(StreamErrorKind::ConnectionReset)), Some(-9806));
    assert_eq!(shim_step(Err(StreamErrorKind::Other)), Some(-36));
}
