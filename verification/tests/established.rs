use secure_transport::{
    classify_read_status, frame, ConnectionType, IoError, ProtocolSide, ReadDisposition,
    ReadEvent, ScriptedStream, SessionState, SslContext, StreamErrorKind, WriteEvent,
};

const HELLO_FRAME: [u8; 5] = [0, 0, 0, 1, 22];
const CLOSE_FRAME: [u8; 5] = [0, 0, 0, 1, 21];

fn response(flags: u8, name: &[u8]) -> ReadEvent {
    let mut payload = vec![flags];
    payload.extend_from_slice(name);
    ReadEvent::Data(frame(&payload))
}

fn connect(reads: Vec<ReadEvent>, writes: Vec<WriteEvent>) -> secure_transport::SslStream {
    let ctx = SslContext::new(ProtocolSide::Client, ConnectionType::Stream).unwrap();
    let mut script = vec![response(0, b"")];
    script.extend(reads);
    ctx.handshake(ScriptedStream::new(script, writes)).unwrap()
}

#[test]
fn load_page() {
    let page = b"HTTP/1.0 200 OK\r\n\r\n<html>hello</html>";
    let mut s = connect(vec![ReadEvent::Data(frame(&page.to_vec()))], vec![]);
    let request = b"GET / HTTP/1.0\r\n\r\n".to_vec();
    assert_eq!(s.write(&request).unwrap(), request.len());
    s.flush().unwrap();
    let mut buf = Vec::new();
    loop {
        let chunk = s.read(1024).unwrap();
        if chunk.is_empty() {
            break;
        }
        buf.extend_from_slice(&chunk);
    }
    let text = String::from_utf8(buf).unwrap();
    assert!(text.starts_with("HTTP/1.0 200 OK"));
    assert!(text.ends_with("</html>"));
    let mut expected = HELLO_FRAME.to_vec();
    expected.extend_from_slice(&frame(&request));
    let recovered = s.close();
    let mut with_close = expected.clone();
    with_close.extend_from_slice(&CLOSE_FRAME);
    assert_eq!(recovered.written, with_close);
}

#[test]
fn read_delivers_buffered_plaintext_in_order() {
    let payload = vec![1, 2, 3, 4, 5, 6, 7, 8, 9];
    let mut s = connect(vec![ReadEvent::Data(frame(&payload))], vec![]);
    assert_eq!(s.read(4).unwrap(), vec![1, 2, 3, 4]);
    assert_eq!(s.context().buffered_read_size().unwrap(), 5);
    assert_eq!(s.read(4).unwrap(), vec![5, 6, 7, 8]);
    assert_eq!(s.read(4).unwrap(), vec![9]);
    assert_eq!(s.context().buffered_read_size().unwrap(), 0);
}

#[test]
fn read_reports_eof_as_zero_length() {
    let mut s = connect(vec![ReadEvent::Eof], vec![]);
    assert!(s.read(16).unwrap().is_empty());
    assert!(matches!(s.context().state().unwrap(), SessionState::Closed));
    assert!(s.read(16).unwrap().is_empty());
}

#[test]
fn read_surfaces_the_preserved_stream_error() {
    let mut s = connect(vec![ReadEvent::Error(StreamErrorKind::Other)], vec![]);
    assert_eq!(s.read(16).unwrap_err(), IoError::Stream(StreamErrorKind::Other));
}

#[test]
fn read_resumes_an_interrupted_record() {
    let payload = vec![42, 43, 44];
    let framed = frame(&payload);
    let mut s = connect(
        vec![
            ReadEvent::Data(framed[..2].to_vec()),
            ReadEvent::Error(StreamErrorKind::WouldBlock),
            ReadEvent::Data(framed[2..].to_vec()),
        ],
        vec![],
    );
    assert_eq!(
        s.read(16).unwrap_err(),
        IoError::Stream(StreamErrorKind::WouldBlock)
    );
    assert_eq!(s.read(16).unwrap(), payload);
}

#[test]
fn read_rejects_oversized_record() {
    let mut s = connect(vec![ReadEvent::Data(vec![0xFF, 0, 0, 0])], vec![]);
    match s.read(16).unwrap_err() {
        IoError::Engine(e) => assert_eq!(e.code(), -9847),
        other => panic!("unexpected error {:?}", other),
    }
    assert!(matches!(s.context().state().unwrap(), SessionState::Aborted));
}

#[test]
fn interrupted_write_is_retained_and_not_duplicated() {
    let mut s = connect(
        vec![],
        vec![
            WriteEvent::Accept(64),
            WriteEvent::Accept(3),
            WriteEvent::Error(StreamErrorKind::WouldBlock),
            WriteEvent::Accept(64),
        ],
    );
    let data = vec![5, 6, 7, 8];
    assert_eq!(
        s.write(&data).unwrap_err(),
        IoError::Stream(StreamErrorKind::WouldBlock)
    );
    assert_eq!(s.write(&data).unwrap(), data.len());
    let mut expected = HELLO_FRAME.to_vec();
    expected.extend_from_slice(&frame(&data));
    assert_eq!(s.get_ref().written, expected);
}

#[test]
fn write_failure_is_never_a_partial_silent_success() {
    let mut s = connect(vec![], vec![WriteEvent::Accept(64), WriteEvent::Zero]);
    let data = vec![1, 2, 3];
    match s.write(&data).unwrap_err() {
        IoError::Engine(e) => assert_eq!(e.code(), -9816),
        other => panic!("unexpected error {:?}", other),
    }
}

#[test]
fn flush_reaches_the_underlying_stream() {
    let mut s = connect(vec![], vec![]);
    assert_eq!(s.get_ref().flushes, 0);
    s.flush().unwrap();
    s.flush().unwrap();
    assert_eq!(s.get_ref().flushes, 2);
}

#[test]
fn get_mut_reaches_the_underlying_stream() {
    let mut s = connect(vec![], vec![]);
    s.get_mut().reads.push(ReadEvent::Data(frame(&vec![77])));
    assert_eq!(s.read(8).unwrap(), vec![77]);
}

#[test]
fn read_status_disposition_table() {
    assert_eq!(classify_read_status(0), ReadDisposition::Deliver);
    assert_eq!(classify_read_status(-9805), ReadDisposition::EndOfInput);
    assert_eq!(classify_read_status(-9806), ReadDisposition::EndOfInput);
    assert_eq!(classify_read_status(-9816), ReadDisposition::EndOfInput);
    assert_eq!(classify_read_status(-9803), ReadDisposition::Fail);
    assert_eq!(classify_read_status(-36), ReadDisposition::Fail);
}

#[test]
fn empty_record_reads_as_zero_without_closing() {
    let mut s = connect(
        vec![ReadEvent::Data(frame(&Vec::new())), ReadEvent::Data(frame(&vec![9]))],
        vec![],
    );
    assert!(s.read(8).unwrap().is_empty());
    assert!(matches!(s.context().state().unwrap(), SessionState::Connected));
    assert_eq!(s.read(8).unwrap(), vec![9]);
}

#[test]
fn prior_preserved_error_surfaces_on_later_failure() {
    let mut s = connect(
        vec![
            ReadEvent::Error(StreamErrorKind::ConnectionReset),
            ReadEvent::Error(StreamErrorKind::Other),
        ],
        vec![],
    );
    assert!(s.read(8).unwrap().is_empty());
    assert!(matches!(s.context().state().unwrap(), SessionState::Closed));
}

#[test]
fn empty_write_succeeds_without_touching_the_stream() {
    let mut s = connect(vec![], vec![]);
    assert_eq!(s.write(&Vec::new()).unwrap(), 0);
    assert_eq!(s.get_ref().written, HELLO_FRAME.to_vec());
}

#[test]
fn long_write_fragments_into_records() {
    let mut s = connect(vec![], vec![]);
    let data = vec![7u8; 65537];
    assert_eq!(s.write(&data).unwrap(), data.len());
    let mut expected = HELLO_FRAME.to_vec();
    expected.extend_from_slice(&frame(&data[..65536].to_vec()));
    expected.extend_from_slice(&frame(&data[65536..].to_vec()));
    assert_eq!(s.get_ref().written, expected);
}

#[test]
fn interrupted_long_write_resumes_where_it_stopped() {
    let mut s = connect(
        vec![],
        vec![
            WriteEvent::Accept(64),
            WriteEvent::Accept(60000),
            WriteEvent::Error(StreamErrorKind::WouldBlock),
            WriteEvent::Accept(200000),
        ],
    );
    let data = vec![9u8; 65537];
    assert_eq!(
        s.write(&data).unwrap_err(),
        IoError::Stream(StreamErrorKind::WouldBlock)
    );
    assert_eq!(s.write(&data).unwrap(), data.len());
    let mut expected = HELLO_FRAME.to_vec();
    expected.extend_from_slice(&frame(&data[..65536].to_vec()));
    expected.extend_from_slice(&frame(&data[65536..].to_vec()));
    assert_eq!(s.get_ref().written, expected);
}
