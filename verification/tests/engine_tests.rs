use lineproto::client::Client as PipelineClient;
use lineproto::error::ProtoError;
use lineproto::multiplexed::Client as MuxClient;
use lineproto::pending::CallState;

fn resolved_payload(state: &CallState) -> Vec<u8> {
    match state {
        CallState::Resolved(Ok(v)) => v.clone(),
        _ => panic!("call was not resolved with a payload"),
    }
}

#[test]
fn pipeline_fifo_resolution() {
    let mut engine = PipelineClient::new();
    let ta = engine.submit(&b"A".to_vec()).unwrap();
    let tb = engine.submit(&b"B".to_vec()).unwrap();
    let tc = engine.submit(&b"C".to_vec()).unwrap();
    assert_ne!(ta, tb);
    assert_ne!(tb, tc);

    let ra = engine.on_response(b"rA".to_vec()).unwrap();
    assert_eq!(ra.id, ta);
    assert_eq!(resolved_payload(&ra.state), b"rA".to_vec());

    let rb = engine.on_response(b"rB".to_vec()).unwrap();
    assert_eq!(rb.id, tb);
    assert_eq!(resolved_payload(&rb.state), b"rB".to_vec());

    let rc = engine.on_response(b"rC".to_vec()).unwrap();
    assert_eq!(rc.id, tc);
    assert_eq!(resolved_payload(&rc.state), b"rC".to_vec());

    assert!(matches!(
        engine.on_response(b"extra".to_vec()),
        Err(ProtoError::UnexpectedResponse)
    ));
}

#[test]
fn pipeline_rejects_embedded_newline() {
    let mut engine = PipelineClient::new();
    assert_eq!(engine.submit(&b"x\ny".to_vec()), Err(ProtoError::InvalidInput));
    // nothing was enqueued for the rejected request
    assert!(matches!(
        engine.on_response(b"r".to_vec()),
        Err(ProtoError::UnexpectedResponse)
    ));
}

#[test]
fn pipeline_close_fails_outstanding_calls() {
    let mut engine = PipelineClient::new();
    let ta = engine.submit(&b"A".to_vec()).unwrap();
    let tb = engine.submit(&b"B".to_vec()).unwrap();
    let failed = engine.on_close();
    assert_eq!(failed.len(), 2);
    assert_eq!(failed[0].id, ta);
    assert_eq!(failed[1].id, tb);
    for call in &failed {
        assert!(matches!(
            call.state,
            CallState::Resolved(Err(ProtoError::ConnectionClosed))
        ));
    }
    assert!(matches!(
        engine.on_response(b"late".to_vec()),
        Err(ProtoError::UnexpectedResponse)
    ));
}

#[test]
fn multiplex_out_of_order_resolution() {
    let mut engine = MuxClient::new();
    let ida = engine.submit(&b"A".to_vec()).unwrap();
    let idb = engine.submit(&b"B".to_vec()).unwrap();
    assert_ne!(ida, idb);

    // B's response arrives first and resolves B, not A
    let rb = engine.on_response(idb, b"rB".to_vec()).unwrap();
    assert_eq!(rb.id, idb as u64);
    assert!(matches!(&rb.state, CallState::Resolved(Ok(v)) if v == &b"rB".to_vec()));

    let ra = engine.on_response(ida, b"rA".to_vec()).unwrap();
    assert_eq!(ra.id, ida as u64);
    assert!(matches!(&ra.state, CallState::Resolved(Ok(v)) if v == &b"rA".to_vec()));
}

#[test]
fn multiplex_unknown_id_is_protocol_error() {
    let mut engine = MuxClient::new();
    let id = engine.submit(&b"A".to_vec()).unwrap();
    assert!(matches!(
        engine.on_response(id + 1, b"stale".to_vec()),
        Err(ProtoError::UnknownRequestId)
    ));
    // a resolved id cannot be resolved twice
    engine.on_response(id, b"rA".to_vec()).unwrap();
    assert!(matches!(
        engine.on_response(id, b"dup".to_vec()),
        Err(ProtoError::UnknownRequestId)
    ));
}

#[test]
fn multiplex_rejects_embedded_newline() {
    let mut engine = MuxClient::new();
    assert_eq!(engine.submit(&b"x\ny".to_vec()), Err(ProtoError::InvalidInput));
}

#[test]
fn multiplex_close_fails_outstanding_calls() {
    let mut engine = MuxClient::new();
    let ida = engine.submit(&b"A".to_vec()).unwrap();
    let failed = engine.on_close();
    assert_eq!(failed.len(), 1);
    assert_eq!(failed[0].id, ida as u64);
    assert!(matches!(
        failed[0].state,
        CallState::Resolved(Err(ProtoError::ConnectionClosed))
    ));
}
