//! The service contract and the server-side dispatch step.
//!
//! A service is the one interface the application implements: a single
//! `call` from request to response-or-error. A connection-scoped factory
//! creates one service instance per accepted connection. The dispatch step
//! wires an inbound frame through a service and encodes the response.

use vstd::prelude::*;
use crate::buffer;
use crate::codec;
use crate::codec::PlainStep;
use crate::error::ProtoError;
use crate::low_level_transport::{LowLevelLineTransport, StartSend};

verus! {

/// The application-facing contract: process one request, produce one
/// response or fail. Nothing is assumed about what an implementation
/// returns; everything built around a service states what it does with
/// whatever came back.
pub trait Service<Req, Resp> {
    fn call(&mut self, req: Req) -> Result<Resp, ProtoError>;
}

/// The connection-scoped factory: build one service instance per accepted
/// connection.
pub trait NewService<Req, Resp> {
    type Instance: Service<Req, Resp>;

    fn new_service(&self) -> Result<Self::Instance, ProtoError>;
}

/// A service that answers every request with the request itself — the
/// canonical application for exercising a connection end to end.
pub struct EchoService;

impl Service<Vec<u8>, Vec<u8>> for EchoService {
    fn call(&mut self, req: Vec<u8>) -> (r: Result<Vec<u8>, ProtoError>)
        ensures
            r matches Ok(v) && v@ == req@,
    {
        Ok(req)
    }
}

/// A factory handing out echo services.
pub struct NewEchoService;

impl NewService<Vec<u8>, Vec<u8>> for NewEchoService {
    type Instance = EchoService;

    fn new_service(&self) -> (r: Result<EchoService, ProtoError>)
        ensures
            r is Ok,
    {
        Ok(EchoService)
    }
}

/// Service middleware that checks responses coming back from the wrapped
/// service for the frame delimiter, failing the request instead of letting
/// a malformed frame reach the wire.
pub struct LineService<T> {
    inner: T,
}

impl<T> LineService<T> {
    /// Wrap `inner` so its responses are validated.
    pub fn new(inner: T) -> (r: LineService<T>)
        ensures
            r.inner_spec() == inner,
    {
        LineService { inner }
    }

    /// The wrapped service.
    pub closed spec fn inner_spec(&self) -> T {
        self.inner
    }
}

impl<T: Service<Vec<u8>, Vec<u8>>> Service<Vec<u8>, Vec<u8>> for LineService<T> {
    /// Forward the request; a response holding the delimiter is replaced
    /// with an "invalid input" error.
    fn call(&mut self, req: Vec<u8>) -> (r: Result<Vec<u8>, ProtoError>)
        ensures
            r matches Ok(v) ==> buffer::no_newline(v@),
    {
        match self.inner.call(req) {
            Ok(resp) => {
                if buffer::contains_newline(&resp) {
                    Err(ProtoError::InvalidInput)
                } else {
                    Ok(resp)
                }
            },
            Err(e) => Err(e),
        }
    }
}

/// A factory that wraps every instance of an inner factory in
/// [`LineService`].
pub struct NewLineService<T> {
    inner: T,
}

impl<T> NewLineService<T> {
    /// Wrap `inner` so every service it creates validates its responses.
    pub fn new(inner: T) -> (r: NewLineService<T>)
        ensures
            r.inner_spec() == inner,
    {
        NewLineService { inner }
    }

    /// The wrapped factory.
    pub closed spec fn inner_spec(&self) -> T {
        self.inner
    }
}

impl<T: NewService<Vec<u8>, Vec<u8>>> NewService<Vec<u8>, Vec<u8>> for NewLineService<T> {
    type Instance = LineService<T::Instance>;

    fn new_service(&self) -> Result<LineService<T::Instance>, ProtoError> {
        match self.inner.new_service() {
            Ok(inner) => Ok(LineService::new(inner)),
            Err(e) => Err(e),
        }
    }
}

/// One server-side dispatch step over a connection's transport: decode the
/// next inbound request frame, hand its payload to the service, and encode
/// whatever response the service produced.
///
/// `Ok(None)` means no complete request is buffered yet. On success the
/// request/response pair is handed back and the encoded response is the
/// transport's pending write; a decode failure or a service error is
/// passed through with the write side untouched.
pub fn dispatch_one<S: Service<Vec<u8>, Vec<u8>>>(
    svc: &mut S,
    t: &mut LowLevelLineTransport,
) -> (r: Result<Option<(Vec<u8>, Vec<u8>)>, ProtoError>)
    requires
        old(t).wf(),
        old(t).write_ready_spec(),
    ensures
        final(t).wf(),
        match codec::plain_decode_spec(old(t).read_view()) {
            PlainStep::Incomplete => {
                &&& r matches Ok(o) && o is None
                &&& final(t).read_view() == old(t).read_view()
                &&& final(t).write_ready_spec()
            },
            PlainStep::Line { line, rest } => {
                &&& final(t).read_view() == rest
                &&& r matches Ok(o) ==> (o matches Some((rq, rs)) && ({
                    &&& rq@ == line
                    &&& final(t).write_pending_view() == codec::plain_encode_spec(rs@)
                }))
                &&& r is Err ==> final(t).write_ready_spec()
            },
            PlainStep::Invalid { rest } => {
                &&& r matches Err(e) && e == ProtoError::InvalidUtf8
                &&& final(t).read_view() == rest
                &&& final(t).write_ready_spec()
            },
        },
{
    let req = match t.poll_frame() {
        Ok(Some(req)) => req,
        Ok(None) => {
            return Ok(None);
        },
        Err(e) => {
            return Err(e);
        },
    };
    let req_copy = buffer::copy_range(&req, 0, req.len());
    let reply = match svc.call(req) {
        Ok(resp) => resp,
        Err(e) => {
            return Err(e);
        },
    };
    let reply_copy = buffer::copy_range(&reply, 0, reply.len());
    proof {
        assert(req_copy@ =~= req@);
        assert(reply_copy@ =~= reply@);
    }
    match t.start_send(reply) {
        StartSend::Ready => Ok(Some((req_copy, reply_copy))),
        StartSend::NotReady(_) => {
            proof {
                assert(false);
            }
            Ok(None)
        },
    }
}

} // verus!
