//! The parser/serializer pair for the pipelined frame shape: a decoded
//! unit is either a message or a connection-level error. A line that is
//! not valid UTF-8 comes back as an error *frame* here, rather than as a
//! decode failure, so the layer above decides what tears the connection
//! down.

use vstd::prelude::*;
use crate::codec;
use crate::codec::PlainStep;
use crate::error::ProtoError;

verus! {

/// One pipelined frame: a message payload, or the error that ends the
/// connection.
pub enum PipelineFrame {
    Message(Vec<u8>),
    ConnectionError(ProtoError),
}

/// Parses lines off the front of a buffer into pipelined frames.
pub struct Parser;

impl Parser {
    /// Parse one frame; `None` means no complete line is buffered yet.
    pub fn parse(&mut self, buf: &mut Vec<u8>) -> (r: Option<PipelineFrame>)
        ensures
            match codec::plain_decode_spec(old(buf)@) {
                PlainStep::Incomplete => {
                    &&& r is None
                    &&& final(buf)@ == old(buf)@
                },
                PlainStep::Line { line, rest } => {
                    &&& r matches Some(f) && f matches PipelineFrame::Message(v) && v@ == line
                    &&& final(buf)@ == rest
                },
                PlainStep::Invalid { rest } => {
                    &&& r matches Some(f) && f matches PipelineFrame::ConnectionError(e) && e
                        == ProtoError::InvalidUtf8
                    &&& final(buf)@ == rest
                },
            },
    {
        match codec::decode_line(buf) {
            Ok(Some(line)) => Some(PipelineFrame::Message(line)),
            Ok(None) => None,
            Err(e) => Some(PipelineFrame::ConnectionError(e)),
        }
    }
}

/// Serializes pipelined message frames onto the back of a buffer.
pub struct Serializer;

impl Serializer {
    /// Append the encoding of a message frame. Only message frames can be
    /// serialized; putting an error frame on the wire is a programming
    /// error, ruled out up front.
    pub fn serialize(&mut self, frame: PipelineFrame, buf: &mut Vec<u8>)
        requires
            frame is Message,
        ensures
            frame matches PipelineFrame::Message(m) ==> final(buf)@ == old(buf)@
                + codec::plain_encode_spec(m@),
    {
        match frame {
            PipelineFrame::Message(m) => codec::encode_line(&m, buf),
            PipelineFrame::ConnectionError(_) => {
                proof {
                    assert(false);
                }
            },
        }
    }
}

} // verus!
