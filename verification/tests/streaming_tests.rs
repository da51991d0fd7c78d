use lineproto::empty::{Async, Empty};
use lineproto::error::ProtoError;
use lineproto::streaming::{Frame, Line, LineCodec, LineMessage, LineStream};
use lineproto::transport_version2::{Parser, PipelineFrame, Serializer};

#[test]
fn streaming_decode_plain_message() {
    let mut codec = LineCodec::new();
    let mut buf = b"oneshot\n".to_vec();
    match codec.decode(&mut buf).unwrap().unwrap() {
        Frame::Message { payload, has_body } => {
            assert_eq!(payload, b"oneshot".to_vec());
            assert!(!has_body);
        }
        _ => panic!("expected a message head"),
    }
}

#[test]
fn streaming_decode_body_sequence() {
    let mut codec = LineCodec::new();
    let mut buf = b"\nchunk1\nchunk2\n\nnext\n".to_vec();

    // empty line while decoding heads: a body follows
    match codec.decode(&mut buf).unwrap().unwrap() {
        Frame::Message { payload, has_body } => {
            assert!(payload.is_empty());
            assert!(has_body);
        }
        _ => panic!("expected a body announcement"),
    }
    // the lines that follow are chunks
    match codec.decode(&mut buf).unwrap().unwrap() {
        Frame::Body { chunk } => assert_eq!(chunk, Some(b"chunk1".to_vec())),
        _ => panic!("expected a chunk"),
    }
    match codec.decode(&mut buf).unwrap().unwrap() {
        Frame::Body { chunk } => assert_eq!(chunk, Some(b"chunk2".to_vec())),
        _ => panic!("expected a chunk"),
    }
    // the next empty line ends the body
    match codec.decode(&mut buf).unwrap().unwrap() {
        Frame::Body { chunk } => assert_eq!(chunk, None),
        _ => panic!("expected the body terminator"),
    }
    // and decoding is back to heads
    match codec.decode(&mut buf).unwrap().unwrap() {
        Frame::Message { payload, has_body } => {
            assert_eq!(payload, b"next".to_vec());
            assert!(!has_body);
        }
        _ => panic!("expected a message head"),
    }
}

#[test]
fn streaming_decode_invalid_utf8_is_fatal() {
    let mut codec = LineCodec::new();
    let mut buf = vec![0xff, b'\n'];
    assert!(matches!(codec.decode(&mut buf), Err(ProtoError::InvalidUtf8)));
}

#[test]
fn streaming_encode_frames() {
    let mut codec = LineCodec::new();
    let mut buf: Vec<u8> = Vec::new();
    codec
        .encode(Frame::Message { payload: b"head".to_vec(), has_body: false }, &mut buf)
        .unwrap();
    codec
        .encode(Frame::Message { payload: Vec::new(), has_body: true }, &mut buf)
        .unwrap();
    codec
        .encode(Frame::Body { chunk: Some(b"part".to_vec()) }, &mut buf)
        .unwrap();
    codec.encode(Frame::Body { chunk: None }, &mut buf).unwrap();
    assert_eq!(buf, b"head\n\npart\n\n".to_vec());
}

#[test]
fn streaming_encode_error_frame_fails() {
    let mut codec = LineCodec::new();
    let mut buf: Vec<u8> = Vec::new();
    let r = codec.encode(
        Frame::ConnectionError { cause: ProtoError::InvalidUtf8 },
        &mut buf,
    );
    assert_eq!(r, Err(ProtoError::InvalidUtf8));
    assert!(buf.is_empty());
}

#[test]
fn line_stream_yields_chunks_in_order() {
    let mut stream = LineStream::from_chunks(vec![b"a".to_vec(), b"b".to_vec()]);
    assert_eq!(stream.poll(), Some(b"a".to_vec()));
    assert_eq!(stream.poll(), Some(b"b".to_vec()));
    assert_eq!(stream.poll(), None);
    // non-restartable: consumed chunks are gone
    assert_eq!(stream.poll(), None);
}

#[test]
fn line_message_mapping_round_trip() {
    let once = Line::Once(b"single".to_vec());
    match once.into_message() {
        LineMessage::WithoutBody(p) => assert_eq!(p, b"single".to_vec()),
        _ => panic!("a one-shot line carries no body"),
    }

    let stream = Line::Stream(LineStream::from_chunks(vec![b"c".to_vec()]));
    match stream.into_message() {
        LineMessage::WithBody(head, mut body) => {
            assert!(head.is_empty());
            assert_eq!(body.poll(), Some(b"c".to_vec()));
        }
        _ => panic!("a stream maps to an empty head announcing a body"),
    }

    match Line::from_message(LineMessage::WithoutBody(b"back".to_vec())) {
        Line::Once(p) => assert_eq!(p, b"back".to_vec()),
        _ => panic!("expected a one-shot line"),
    }
}

#[test]
fn parser_yields_message_frames() {
    let mut parser = Parser;
    let mut buf = b"line\nmore".to_vec();
    match parser.parse(&mut buf) {
        Some(PipelineFrame::Message(p)) => assert_eq!(p, b"line".to_vec()),
        _ => panic!("expected a message frame"),
    }
    assert!(parser.parse(&mut buf).is_none());
    assert_eq!(buf, b"more".to_vec());
}

#[test]
fn parser_turns_invalid_utf8_into_error_frame() {
    let mut parser = Parser;
    let mut buf = vec![0xfe, b'\n'];
    match parser.parse(&mut buf) {
        Some(PipelineFrame::ConnectionError(e)) => assert_eq!(e, ProtoError::InvalidUtf8),
        _ => panic!("expected an error frame, not a decode failure"),
    }
}

#[test]
fn serializer_writes_message_frames() {
    let mut serializer = Serializer;
    let mut buf: Vec<u8> = Vec::new();
    serializer.serialize(PipelineFrame::Message(b"out".to_vec()), &mut buf);
    assert_eq!(buf, b"out\n".to_vec());
}

#[test]
fn empty_stream_is_exhausted_immediately() {
    let mut empty: Empty<Vec<u8>, ProtoError> = Empty::new();
    match empty.poll() {
        Ok(Async::Ready(None)) => {}
        _ => panic!("an empty stream ends at once"),
    }
}
