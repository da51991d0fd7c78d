use lineproto::error::ProtoError;
use lineproto::multiplexed::{dispatch_one, Client as MuxClient, LineCodec as MuxLineCodec};
use lineproto::pending::CallState;
use lineproto::service::EchoService;

#[test]
fn multiplex_dispatch_preserves_the_request_id() {
    let mut codec = MuxLineCodec;
    let mut read: Vec<u8> = Vec::new();
    codec.encode(9, &b"hi".to_vec(), &mut read);

    let mut write: Vec<u8> = Vec::new();
    let mut service = EchoService;
    let (id, request, response) = dispatch_one(&mut service, &mut read, &mut write)
        .unwrap()
        .expect("a full frame was delivered");
    assert_eq!(id, 9);
    assert_eq!(request, b"hi".to_vec());
    assert_eq!(response, b"hi".to_vec());
    assert!(read.is_empty());

    // the encoded response carries the inbound frame's id
    let (out_id, out_payload) = codec.decode(&mut write).unwrap().unwrap();
    assert_eq!(out_id, 9);
    assert_eq!(out_payload, b"hi".to_vec());
}

#[test]
fn multiplex_dispatch_reports_incomplete_input() {
    let mut read = vec![0, 0, 0, 1];
    let mut write: Vec<u8> = Vec::new();
    let mut service = EchoService;
    assert!(dispatch_one(&mut service, &mut read, &mut write)
        .unwrap()
        .is_none());
    assert_eq!(read, vec![0, 0, 0, 1]);
    assert!(write.is_empty());
}

#[test]
fn multiplex_end_to_end_out_of_order() {
    let mut engine = MuxClient::new();
    let mut codec = MuxLineCodec;

    // two requests go out, tagged with the client's fresh ids
    let id_a = engine.submit(&b"A".to_vec()).unwrap();
    let id_b = engine.submit(&b"B".to_vec()).unwrap();
    let mut wire: Vec<u8> = Vec::new();
    codec.encode(id_a, &b"A".to_vec(), &mut wire);
    codec.encode(id_b, &b"B".to_vec(), &mut wire);

    // the peer answers B before A
    let mut inbound: Vec<u8> = Vec::new();
    codec.encode(id_b, &b"rB".to_vec(), &mut inbound);
    codec.encode(id_a, &b"rA".to_vec(), &mut inbound);

    let (first_id, first_payload) = codec.decode(&mut inbound).unwrap().unwrap();
    let first = engine.on_response(first_id, first_payload).unwrap();
    assert_eq!(first.id, id_b as u64);
    assert!(matches!(&first.state, CallState::Resolved(Ok(v)) if v == &b"rB".to_vec()));

    let (second_id, second_payload) = codec.decode(&mut inbound).unwrap().unwrap();
    let second = engine.on_response(second_id, second_payload).unwrap();
    assert_eq!(second.id, id_a as u64);
    assert!(matches!(&second.state, CallState::Resolved(Ok(v)) if v == &b"rA".to_vec()));

    // nothing is left outstanding
    assert!(matches!(
        engine.on_response(id_a, b"late".to_vec()),
        Err(ProtoError::UnknownRequestId)
    ));
}
