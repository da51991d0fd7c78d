//! The streaming variant of the line protocol.
//!
//! The wire format is line-based, with one twist: an empty line toggles
//! between head-decoding and body-decoding. An empty head line announces
//! "body follows"; while a body is being decoded, every line is one chunk
//! of it, and the next empty line ends the body. A request or response is
//! either a single payload or a head followed by a stream of chunks.

use vstd::prelude::*;
use crate::buffer;
use crate::codec;
use crate::codec::PlainStep;
use crate::error::ProtoError;
use crate::service::{NewService, Service};

verus! {

/// One decoded protocol unit on the streaming wire: a message head (whose
/// `has_body` flag announces a chunk stream), one body chunk (`None` ends
/// the body), or the error that ends the connection.
pub enum Frame {
    Message { payload: Vec<u8>, has_body: bool },
    Body { chunk: Option<Vec<u8>> },
    ConnectionError { cause: ProtoError },
}

/// The streaming line codec. It tracks whether the next line is a message
/// head or part of a streaming body.
pub struct LineCodec {
    decoding_head: bool,
}

impl LineCodec {
    /// True when the next decoded line will be treated as a message head.
    pub closed spec fn decoding_head_spec(&self) -> bool {
        self.decoding_head
    }

    /// A fresh codec, expecting a message head first.
    pub fn new() -> (r: LineCodec)
        ensures
            r.decoding_head_spec(),
    {
        LineCodec { decoding_head: true }
    }

    /// Decode one frame from the front of `buf`.
    ///
    /// An empty line flips the head/body state: seen while decoding heads
    /// it announces a body (`Message` with an empty head and `has_body`
    /// set), seen while decoding a body it ends it (`Body` with no chunk).
    /// Any other line is a head or a chunk, by the current state.
    pub fn decode(&mut self, buf: &mut Vec<u8>) -> (r: Result<Option<Frame>, ProtoError>)
        ensures
            match codec::plain_decode_spec(old(buf)@) {
                PlainStep::Incomplete => {
                    &&& r matches Ok(o) && o is None
                    &&& final(buf)@ == old(buf)@
                    &&& final(self).decoding_head_spec() == old(self).decoding_head_spec()
                },
                PlainStep::Line { line, rest } => {
                    &&& final(buf)@ == rest
                    &&& line.len() == 0 ==> ({
                        &&& final(self).decoding_head_spec() == !old(self).decoding_head_spec()
                        &&& old(self).decoding_head_spec() ==> (r matches Ok(o) && o matches Some(
                            f,
                        ) && f matches Frame::Message { payload, has_body } && payload@.len() == 0
                            && has_body == true)
                        &&& !old(self).decoding_head_spec() ==> (r matches Ok(o) && o matches Some(
                            f,
                        ) && f matches Frame::Body { chunk } && chunk is None)
                    })
                    &&& line.len() > 0 ==> ({
                        &&& final(self).decoding_head_spec() == old(self).decoding_head_spec()
                        &&& old(self).decoding_head_spec() ==> (r matches Ok(o) && o matches Some(
                            f,
                        ) && f matches Frame::Message { payload, has_body } && payload@ == line
                            && has_body == false)
                        &&& !old(self).decoding_head_spec() ==> (r matches Ok(o) && o matches Some(
                            f,
                        ) && f matches Frame::Body { chunk } && (chunk matches Some(c) && c@
                            == line))
                    })
                },
                PlainStep::Invalid { rest } => {
                    &&& r matches Err(e) && e == ProtoError::InvalidUtf8
                    &&& final(buf)@ == rest
                    &&& final(self).decoding_head_spec() == old(self).decoding_head_spec()
                },
            },
    {
        let line = match codec::decode_line(buf) {
            Ok(Some(line)) => line,
            Ok(None) => {
                return Ok(None);
            },
            Err(e) => {
                return Err(e);
            },
        };
        if line.len() == 0 {
            let was_head = self.decoding_head;
            self.decoding_head = !was_head;
            if was_head {
                Ok(Some(Frame::Message { payload: line, has_body: true }))
            } else {
                Ok(Some(Frame::Body { chunk: None }))
            }
        } else {
            if self.decoding_head {
                Ok(Some(Frame::Message { payload: line, has_body: false }))
            } else {
                Ok(Some(Frame::Body { chunk: Some(line) }))
            }
        }
    }

    /// Append the encoding of `frame` to `buf`.
    ///
    /// A head's text is empty exactly when it announces a body — breaking
    /// that rule is an encode-time programming error, ruled out up front,
    /// not a wire error. An error frame cannot be put on the wire: it
    /// comes back as the connection-level error it carries.
    pub fn encode(&mut self, frame: Frame, buf: &mut Vec<u8>) -> (r: Result<(), ProtoError>)
        requires
            frame matches Frame::Message { payload, has_body } ==> ((payload@.len() == 0)
                == has_body),
        ensures
            final(self).decoding_head_spec() == old(self).decoding_head_spec(),
            frame matches Frame::Message { payload, .. } ==> (r is Ok && final(buf)@ == old(buf)@
                + codec::plain_encode_spec(payload@)),
            frame matches Frame::Body { chunk } ==> (r is Ok && ({
                &&& chunk matches Some(c) ==> final(buf)@ == old(buf)@ + codec::plain_encode_spec(
                    c@,
                )
                &&& chunk is None ==> final(buf)@ == old(buf)@ + codec::plain_encode_spec(
                    Seq::<u8>::empty(),
                )
            })),
            frame matches Frame::ConnectionError { cause } ==> (r matches Err(e) && e == cause
                && final(buf)@ == old(buf)@),
    {
        match frame {
            Frame::Message { payload, has_body: _ } => {
                codec::encode_line(&payload, buf);
                Ok(())
            },
            Frame::Body { chunk } => {
                match chunk {
                    Some(c) => {
                        codec::encode_line(&c, buf);
                    },
                    None => {
                        let empty: Vec<u8> = Vec::new();
                        codec::encode_line(&empty, buf);
                    },
                }
                Ok(())
            },
            Frame::ConnectionError { cause } => Err(cause),
        }
    }
}

/// A finite, non-restartable stream of body chunks.
pub struct LineStream {
    chunks: Vec<Vec<u8>>,
    next: usize,
}

impl LineStream {
    /// The chunks not yet consumed, in order.
    pub closed spec fn remaining(&self) -> Seq<Seq<u8>> {
        self.chunks@.map_values(|c: Vec<u8>| c@).skip(self.next as int)
    }

    pub closed spec fn wf(&self) -> bool {
        self.next <= self.chunks@.len()
    }

    /// A stream that will yield exactly `chunks`, in order.
    pub fn from_chunks(chunks: Vec<Vec<u8>>) -> (r: LineStream)
        ensures
            r.wf(),
            r.remaining().len() == chunks@.len(),
            forall|i: int| 0 <= i < chunks@.len() ==> r.remaining()[i] == chunks@[i]@,
    {
        let r = LineStream { chunks, next: 0 };
        proof {
            assert(r.remaining() =~= r.chunks@.map_values(|c: Vec<u8>| c@));
        }
        r
    }

    /// The next chunk, or `None` once the stream is exhausted. The stream
    /// cannot be restarted: consumed chunks are gone.
    pub fn poll(&mut self) -> (r: Option<Vec<u8>>)
        requires
            old(self).wf(),
        ensures
            final(self).wf(),
            old(self).remaining().len() == 0 ==> (r is None && final(self).remaining() == old(
                self,
            ).remaining()),
            old(self).remaining().len() > 0 ==> ({
                &&& r matches Some(c) && c@ == old(self).remaining()[0]
                &&& final(self).remaining() == old(self).remaining().skip(1)
            }),
    {
        if self.next < self.chunks.len() {
            let chunk = buffer::copy_range(&self.chunks[self.next], 0, self.chunks[self.next].len());
            self.next = self.next + 1;
            proof {
                assert(chunk@ =~= old(self).remaining()[0]);
                assert(self.remaining() =~= old(self).remaining().skip(1));
            }
            Some(chunk)
        } else {
            None
        }
    }
}

/// A streaming request or response: a single payload, or a stream of body
/// chunks announced by an empty head.
pub enum Line {
    Once(Vec<u8>),
    Stream(LineStream),
}

/// The shape the dispatch machinery exchanges: a message without a body,
/// or an (empty) head together with the body stream.
pub enum LineMessage {
    WithoutBody(Vec<u8>),
    WithBody(Vec<u8>, LineStream),
}

impl Line {
    /// The pure mapping off the wire shape: a message without a body is a
    /// one-shot line; a head with a body — empty by the wire invariant,
    /// required here — carries its chunk stream.
    pub fn from_message(src: LineMessage) -> (r: Line)
        requires
            src matches LineMessage::WithBody(head, _) ==> head@.len() == 0,
        ensures
            src matches LineMessage::WithoutBody(p) ==> (r matches Line::Once(q) && q == p),
            src matches LineMessage::WithBody(_, s) ==> (r matches Line::Stream(t) && t == s),
    {
        match src {
            LineMessage::WithoutBody(line) => Line::Once(line),
            LineMessage::WithBody(_, body) => Line::Stream(body),
        }
    }

    /// The pure mapping onto the wire shape: a one-shot line carries no
    /// body marker; a stream is represented as an empty head announcing
    /// the body.
    pub fn into_message(self) -> (r: LineMessage)
        ensures
            self matches Line::Once(p) ==> (r matches LineMessage::WithoutBody(q) && q == p),
            self matches Line::Stream(s) ==> (r matches LineMessage::WithBody(h, t) && h@.len()
                == 0 && t == s),
    {
        match self {
            Line::Once(line) => LineMessage::WithoutBody(line),
            Line::Stream(body) => LineMessage::WithBody(Vec::new(), body),
        }
    }
}

/// Maps a `Line` service into a `LineMessage` service for the server side
/// of the dispatch loop.
pub struct ServerTypeMap<T> {
    inner: T,
}

impl<T> ServerTypeMap<T> {
    /// Wrap `inner` so it can serve wire-shaped messages.
    pub fn new(inner: T) -> (r: ServerTypeMap<T>)
        ensures
            r.inner_spec() == inner,
    {
        ServerTypeMap { inner }
    }

    /// The wrapped service or factory.
    pub closed spec fn inner_spec(&self) -> T {
        self.inner
    }
}

impl<T: Service<Line, Line>> Service<LineMessage, LineMessage> for ServerTypeMap<T> {
    /// Convert the request off the wire shape, call the wrapped service,
    /// and convert its answer back. A message whose head announces a body
    /// but is not empty violates the wire invariant and is rejected.
    fn call(&mut self, req: LineMessage) -> (r: Result<LineMessage, ProtoError>)
        ensures
            (req matches LineMessage::WithBody(h, _) && h@.len() > 0) ==> (r matches Err(e) && e
                == ProtoError::InvalidInput),
            r matches Ok(m) ==> (m matches LineMessage::WithBody(h, _) ==> h@.len() == 0),
    {
        let ok = match &req {
            LineMessage::WithBody(head, _) => head.len() == 0,
            LineMessage::WithoutBody(_) => true,
        };
        if !ok {
            return Err(ProtoError::InvalidInput);
        }
        match self.inner.call(Line::from_message(req)) {
            Ok(resp) => Ok(resp.into_message()),
            Err(e) => Err(e),
        }
    }
}

impl<T: NewService<Line, Line>> NewService<LineMessage, LineMessage> for ServerTypeMap<T> {
    type Instance = ServerTypeMap<T::Instance>;

    fn new_service(&self) -> Result<ServerTypeMap<T::Instance>, ProtoError> {
        match self.inner.new_service() {
            Ok(inner) => Ok(ServerTypeMap::new(inner)),
            Err(e) => Err(e),
        }
    }
}

/// Maps a `LineMessage` service into a `Line` service for the client call
/// path.
pub struct ClientTypeMap<T> {
    inner: T,
}

impl<T> ClientTypeMap<T> {
    /// Wrap `inner` so callers can work with `Line` values.
    pub fn new(inner: T) -> (r: ClientTypeMap<T>)
        ensures
            r.inner_spec() == inner,
    {
        ClientTypeMap { inner }
    }

    /// The wrapped service.
    pub closed spec fn inner_spec(&self) -> T {
        self.inner
    }
}

impl<T: Service<LineMessage, LineMessage>> Service<Line, Line> for ClientTypeMap<T> {
    /// Convert the request onto the wire shape, call the wrapped service,
    /// and convert its answer back. A response whose head announces a
    /// body but is not empty violates the wire invariant and is rejected.
    fn call(&mut self, req: Line) -> Result<Line, ProtoError> {
        match self.inner.call(req.into_message()) {
            Ok(resp) => {
                let ok = match &resp {
                    LineMessage::WithBody(head, _) => head.len() == 0,
                    LineMessage::WithoutBody(_) => true,
                };
                if ok {
                    Ok(Line::from_message(resp))
                } else {
                    Err(ProtoError::InvalidInput)
                }
            },
            Err(e) => Err(e),
        }
    }
}

} // verus!
