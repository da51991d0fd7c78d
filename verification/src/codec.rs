//! The plain line codec: a frame is the UTF-8 text up to and excluding the
//! first `\n` in the buffer.
//!
//! `decode` consumes a prefix of the buffer and yields zero or one frame;
//! `encode` appends the payload and a delimiter. Both are pure buffer
//! operations; the transport owns the buffers and the I/O stays outside.

use vstd::prelude::*;
use crate::buffer;
use crate::buffer::NL;
use crate::error::ProtoError;
use crate::utf8;

verus! {

/// What one decode step does to a buffer: either no complete frame is
/// available yet, or the first line and the remaining bytes, or a
/// consumed-but-invalid line and the remaining bytes.
pub enum PlainStep {
    Incomplete,
    Line { line: Seq<u8>, rest: Seq<u8> },
    Invalid { rest: Seq<u8> },
}

/// The plain decode relation: one step over the buffered bytes.
pub open spec fn plain_decode_spec(buf: Seq<u8>) -> PlainStep {
    let n = buffer::find_newline_spec(buf, 0);
    if n == buf.len() {
        PlainStep::Incomplete
    } else {
        let line = buf.subrange(0, n);
        let rest = buf.subrange(n + 1, buf.len() as int);
        if utf8::is_utf8(line) {
            PlainStep::Line { line, rest }
        } else {
            PlainStep::Invalid { rest }
        }
    }
}

/// The plain encoding of a payload: the payload followed by the delimiter.
pub open spec fn plain_encode_spec(p: Seq<u8>) -> Seq<u8> {
    p + seq![NL]
}

/// Decode one line from the front of `buf`, as `plain_decode_spec` says.
pub fn decode_line(buf: &mut Vec<u8>) -> (r: Result<Option<Vec<u8>>, ProtoError>)
    ensures
        match plain_decode_spec(old(buf)@) {
            PlainStep::Incomplete => {
                &&& r matches Ok(o) && o is None
                &&& final(buf)@ == old(buf)@
            },
            PlainStep::Line { line, rest } => {
                &&& r matches Ok(o) && o matches Some(v) && v@ == line
                &&& final(buf)@ == rest
            },
            PlainStep::Invalid { rest } => {
                &&& r matches Err(e) && e == ProtoError::InvalidUtf8
                &&& final(buf)@ == rest
            },
        },
{
    let n = buffer::find_newline(buf, 0);
    proof {
        buffer::lemma_find_newline_props(buf@, 0);
    }
    if n == buf.len() {
        return Ok(None);
    }
    let line = buffer::split_line(buf, n);
    if utf8::utf8_ok(line.as_slice()) {
        Ok(Some(line))
    } else {
        Err(ProtoError::InvalidUtf8)
    }
}

/// Append the encoding of `msg` to `buf`, as `plain_encode_spec` says.
pub fn encode_line(msg: &Vec<u8>, buf: &mut Vec<u8>)
    ensures
        final(buf)@ == old(buf)@ + plain_encode_spec(msg@),
{
    buffer::push_all(buf, msg);
    buf.push(NL);
    proof {
        assert(buf@ =~= old(buf)@ + plain_encode_spec(msg@));
    }
}

/// The plain line codec. It keeps no state; the struct exists so the codec
/// can be handed around as a value, as the framed transports do.
pub struct LineCodec;

impl LineCodec {
    /// Decode one frame from the front of `buf`. `Ok(None)` means no
    /// complete frame is buffered yet; invalid UTF-8 is a connection-fatal
    /// decode error, with the offending line already consumed.
    pub fn decode(&mut self, buf: &mut Vec<u8>) -> (r: Result<Option<Vec<u8>>, ProtoError>)
        ensures
            match plain_decode_spec(old(buf)@) {
                PlainStep::Incomplete => {
                    &&& r matches Ok(o) && o is None
                    &&& final(buf)@ == old(buf)@
                },
                PlainStep::Line { line, rest } => {
                    &&& r matches Ok(o) && o matches Some(v) && v@ == line
                    &&& final(buf)@ == rest
                },
                PlainStep::Invalid { rest } => {
                    &&& r matches Err(e) && e == ProtoError::InvalidUtf8
                    &&& final(buf)@ == rest
                },
            },
    {
        decode_line(buf)
    }

    /// Append the encoding of `msg` to `buf`.
    pub fn encode(&mut self, msg: &Vec<u8>, buf: &mut Vec<u8>)
        ensures
            final(buf)@ == old(buf)@ + plain_encode_spec(msg@),
    {
        encode_line(msg, buf)
    }
}

/// Round trip: a payload without a delimiter, once encoded, decodes back to
/// exactly that payload, and any bytes that follow the frame are left in
/// the buffer untouched.
pub proof fn lemma_plain_round_trip(p: Seq<u8>, rest: Seq<u8>)
    requires
        buffer::no_newline(p),
    ensures
        utf8::is_utf8(p) ==> plain_decode_spec(plain_encode_spec(p) + rest)
            == (PlainStep::Line { line: p, rest }),
{
    let buf = plain_encode_spec(p) + rest;
    assert(buf[p.len() as int] == NL);
    buffer::lemma_find_newline_at(buf, 0, p.len() as int);
    assert(buf.subrange(0, p.len() as int) =~= p);
    assert(buf.subrange(p.len() as int + 1, buf.len() as int) =~= rest);
}

} // verus!
