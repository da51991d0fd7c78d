use lineproto::client::Client as PipelineClient;
use lineproto::low_level_transport::{new_line_transport, LowLevelLineTransport, StartSend};
use lineproto::pending::CallState;
use lineproto::service::{dispatch_one, EchoService};

/// Move every pending byte of `from` into the read buffer of `to`, as a
/// lossless in-memory wire.
fn pump(from: &mut LowLevelLineTransport, to: &mut LowLevelLineTransport) {
    let bytes = from.pending_bytes();
    from.advance_write(bytes.len());
    to.feed(&bytes);
}

#[test]
fn echo_round_trip_over_pipeline() {
    let mut client_transport = new_line_transport();
    let mut server_transport = new_line_transport();
    let mut engine = PipelineClient::new();
    let mut service = EchoService;

    // client side: correlate, then frame the request
    let token = engine.submit(&b"Hello".to_vec()).unwrap();
    match client_transport.start_send(b"Hello".to_vec()) {
        StartSend::Ready => {}
        StartSend::NotReady(_) => panic!("fresh transport must accept a frame"),
    }
    pump(&mut client_transport, &mut server_transport);

    // server side: decode, call the service, frame the response
    let served = dispatch_one(&mut service, &mut server_transport).unwrap();
    let (request, response) = served.expect("a full request frame was delivered");
    assert_eq!(request, b"Hello".to_vec());
    assert_eq!(response, b"Hello".to_vec());
    pump(&mut server_transport, &mut client_transport);

    // client side: decode the response and resolve the oldest call
    let frame = client_transport.poll_frame().unwrap().expect("a full response frame");
    let call = engine.on_response(frame).unwrap();
    assert_eq!(call.id, token);
    match call.state {
        CallState::Resolved(Ok(payload)) => assert_eq!(payload, b"Hello".to_vec()),
        _ => panic!("the call must resolve with the echoed payload"),
    }
}

#[test]
fn dispatch_reports_incomplete_input() {
    let mut server_transport = new_line_transport();
    let mut service = EchoService;
    server_transport.feed(&b"partial".to_vec());
    assert!(dispatch_one(&mut service, &mut server_transport)
        .unwrap()
        .is_none());
}

#[test]
fn transport_refuses_overlapping_writes() {
    let mut t = new_line_transport();
    match t.start_send(b"first".to_vec()) {
        StartSend::Ready => {}
        StartSend::NotReady(_) => panic!("fresh transport must accept a frame"),
    }
    // the prior write has not drained: the new frame is handed back
    match t.start_send(b"second".to_vec()) {
        StartSend::NotReady(frame) => assert_eq!(frame, b"second".to_vec()),
        StartSend::Ready => panic!("a second write may not start while one is outstanding"),
    }
    // drain in two steps; flushing resumes where it left off
    assert_eq!(t.pending_bytes(), b"first\n".to_vec());
    t.advance_write(3);
    assert_eq!(t.pending_bytes(), b"st\n".to_vec());
    t.advance_write(3);
    assert!(t.write_ready());
    match t.start_send(b"second".to_vec()) {
        StartSend::Ready => {}
        StartSend::NotReady(_) => panic!("drained transport must accept a frame"),
    }
}

#[test]
fn transport_assembles_partial_reads() {
    let mut t = new_line_transport();
    t.feed(&b"He".to_vec());
    assert_eq!(t.poll_frame(), Ok(None));
    t.feed(&b"llo\nwo".to_vec());
    assert_eq!(t.poll_frame(), Ok(Some(b"Hello".to_vec())));
    assert_eq!(t.poll_frame(), Ok(None));
    t.feed(&b"rld\n".to_vec());
    assert_eq!(t.poll_frame(), Ok(Some(b"world".to_vec())));
}
