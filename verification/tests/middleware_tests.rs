use lineproto::error::ProtoError;
use lineproto::low_level_transport::{new_line_transport, StartSend};
use lineproto::pingpong::{check_ping_reply, ping_payload, pong_payload, PingPong};
use lineproto::service::{EchoService, LineService, NewEchoService, NewLineService, NewService, Service};
use lineproto::timeout::{RaceWinner, Timeout};
use lineproto::validate::Validate;

/// A service that records nothing and fails every call with a sentinel
/// error, so a test can tell whether it was consulted at all.
struct Untouchable;

impl Service<Vec<u8>, Vec<u8>> for Untouchable {
    fn call(&mut self, _req: Vec<u8>) -> Result<Vec<u8>, ProtoError> {
        Err(ProtoError::UnexpectedResponse)
    }
}

/// A service that answers every request with a fixed, possibly malformed,
/// response.
struct Fixed(Vec<u8>);

impl Service<Vec<u8>, Vec<u8>> for Fixed {
    fn call(&mut self, _req: Vec<u8>) -> Result<Vec<u8>, ProtoError> {
        Ok(self.0.clone())
    }
}

#[test]
fn validate_rejects_bad_request_before_forwarding() {
    // were the inner service consulted, the sentinel error would come back
    let mut validate = Validate::new(Untouchable);
    let r = validate.call(b"x\ny".to_vec());
    assert_eq!(r, Err(ProtoError::InvalidInput));
}

#[test]
fn validate_forwards_good_request() {
    let mut validate = Validate::new(EchoService);
    assert_eq!(validate.call(b"fine".to_vec()), Ok(b"fine".to_vec()));
}

#[test]
fn validate_rejects_bad_response() {
    let mut validate = Validate::new(Fixed(b"a\nb".to_vec()));
    assert_eq!(validate.call(b"req".to_vec()), Err(ProtoError::InvalidInput));
}

#[test]
fn validate_factory_wraps_instances() {
    let factory = Validate::new(NewEchoService);
    let mut instance = factory.new_service().unwrap();
    assert_eq!(instance.call(b"x\ny".to_vec()), Err(ProtoError::InvalidInput));
    assert_eq!(instance.call(b"ok".to_vec()), Ok(b"ok".to_vec()));
}

#[test]
fn line_service_validates_responses_only() {
    let mut svc = LineService::new(Fixed(b"a\nb".to_vec()));
    assert_eq!(svc.call(b"req".to_vec()), Err(ProtoError::InvalidInput));
    let mut echo = LineService::new(EchoService);
    assert_eq!(echo.call(b"ok".to_vec()), Ok(b"ok".to_vec()));
}

#[test]
fn new_line_service_wraps_instances() {
    let factory = NewLineService::new(NewEchoService);
    let mut instance = factory.new_service().unwrap();
    assert_eq!(instance.call(b"hello".to_vec()), Ok(b"hello".to_vec()));
}

#[test]
fn ping_is_intercepted_and_never_surfaces() {
    let mut t = PingPong::new(new_line_transport());
    let mut inbound = ping_payload();
    inbound.push(b'\n');
    inbound.extend_from_slice(b"hello\n");
    t.feed(&inbound);
    // the ping is swallowed; the first observable frame is the real one
    assert_eq!(t.poll_frame(), Ok(Some(b"hello".to_vec())));
    assert_eq!(t.poll_frame(), Ok(None));
}

#[test]
fn ping_is_answered_immediately_when_transport_is_free() {
    let mut t = PingPong::new(new_line_transport());
    let mut inbound = ping_payload();
    inbound.push(b'\n');
    t.feed(&inbound);
    assert_eq!(t.poll_frame(), Ok(None));

    // the pong went straight to the write buffer; an application frame
    // arriving now waits behind it
    let mut pong_frame = pong_payload();
    pong_frame.push(b'\n');
    assert_eq!(t.pending_bytes(), pong_frame);
    match t.start_send(b"app".to_vec()) {
        StartSend::NotReady(frame) => assert_eq!(frame, b"app".to_vec()),
        StartSend::Ready => panic!("application frame overtook the pong"),
    }
    let n: usize = t.pending_bytes().len();
    t.advance_write(n);
    match t.start_send(b"app".to_vec()) {
        StartSend::Ready => {}
        StartSend::NotReady(_) => panic!("transport should be free again"),
    }
    assert_eq!(t.pending_bytes(), b"app\n".to_vec());
}

#[test]
fn owed_pong_is_written_before_queued_application_frame() {
    let mut t = PingPong::new(new_line_transport());
    // an earlier application frame still occupies the write buffer
    match t.start_send(b"first".to_vec()) {
        StartSend::Ready => {}
        StartSend::NotReady(_) => panic!("fresh transport must accept a frame"),
    }
    let mut inbound = ping_payload();
    inbound.push(b'\n');
    t.feed(&inbound);
    // the pong cannot be flushed yet, so it is owed
    assert_eq!(t.poll_frame(), Ok(None));
    let n: usize = t.pending_bytes().len();
    t.advance_write(n);

    // the buffer has drained, but a pong is owed: the next application
    // frame is deferred until the pong has gone out
    match t.start_send(b"second".to_vec()) {
        StartSend::NotReady(frame) => assert_eq!(frame, b"second".to_vec()),
        StartSend::Ready => panic!("application frame overtook an owed pong"),
    }
    assert!(t.flush_pongs());
    let mut pong_frame = pong_payload();
    pong_frame.push(b'\n');
    assert_eq!(t.pending_bytes(), pong_frame);
    let n2: usize = t.pending_bytes().len();
    t.advance_write(n2);
    assert!(!t.flush_pongs());
    match t.start_send(b"second".to_vec()) {
        StartSend::Ready => {}
        StartSend::NotReady(_) => panic!("transport should be free again"),
    }
}

#[test]
fn several_pings_owe_several_pongs() {
    let mut t = PingPong::new(new_line_transport());
    let mut inbound = ping_payload();
    inbound.push(b'\n');
    let one = inbound.clone();
    inbound.extend_from_slice(&one);
    t.feed(&inbound);
    // the first ping is answered on the spot, the second is owed
    assert_eq!(t.poll_frame(), Ok(None));
    let mut written: Vec<u8> = Vec::new();
    loop {
        let pending = t.pending_bytes();
        if !pending.is_empty() {
            written.extend_from_slice(&pending);
            t.advance_write(pending.len());
        } else if !t.flush_pongs() {
            break;
        }
    }
    let mut two_pongs = pong_payload();
    two_pongs.push(b'\n');
    let one_pong = two_pongs.clone();
    two_pongs.extend_from_slice(&one_pong);
    assert_eq!(written, two_pongs);
}

#[test]
fn ping_reply_check() {
    assert!(check_ping_reply(&pong_payload()).is_ok());
    assert_eq!(
        check_ping_reply(&b"something".to_vec()),
        Err(ProtoError::ExpectedPong)
    );
    assert_eq!(
        check_ping_reply(&ping_payload()),
        Err(ProtoError::ExpectedPong)
    );
}

#[test]
fn timeout_resolves_race() {
    let timeout = Timeout::new(100);
    assert_eq!(
        timeout.resolve(RaceWinner::Call(Ok(b"done".to_vec()))),
        Ok(b"done".to_vec())
    );
    assert_eq!(
        timeout.resolve(RaceWinner::Call(Err(ProtoError::ConnectionClosed))),
        Err(ProtoError::ConnectionClosed)
    );
    assert_eq!(timeout.resolve(RaceWinner::Deadline), Err(ProtoError::TimedOut));
}

#[test]
fn timeout_deadline_arithmetic() {
    let timeout = Timeout::new(100);
    assert_eq!(timeout.deadline_from(50), Some(150));
    assert_eq!(timeout.deadline_from(u64::MAX - 10), None);
    assert!(timeout.has_expired(150, 150));
    assert!(!timeout.has_expired(149, 150));
}
