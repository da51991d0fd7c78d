//! The low-level line transport: one read buffer and one write buffer per
//! connection, presenting the plain codec as a duplex frame channel.
//!
//! The surrounding connection task owns the socket and drives this state
//! machine: it appends whatever bytes became readable with [`feed`] and
//! asks for the next frame with [`poll_frame`]; it takes the unwritten
//! bytes with [`pending_bytes`], hands them to the socket, and reports how
//! many were accepted with [`advance_write`]. A new frame is accepted for
//! sending only once the previous write has fully drained — the write
//! buffer is refilled only after `write_pos` has reached its length, so a
//! connection never starts a second write while one is outstanding.
//!
//! [`feed`]: LowLevelLineTransport::feed
//! [`poll_frame`]: LowLevelLineTransport::poll_frame
//! [`pending_bytes`]: LowLevelLineTransport::pending_bytes
//! [`advance_write`]: LowLevelLineTransport::advance_write

use vstd::prelude::*;
use crate::buffer;
use crate::codec;
use crate::codec::PlainStep;
use crate::error::ProtoError;

verus! {

/// The transport's answer to a send attempt, mirroring an asynchronous
/// sink: either the frame was accepted and encoded, or the prior write has
/// not drained yet and the frame is handed back to be retried after the
/// drain completes.
pub enum StartSend {
    Ready,
    NotReady(Vec<u8>),
}

/// A duplex line-framed connection endpoint: raw bytes in and out on one
/// side, whole frames on the other.
pub struct LowLevelLineTransport {
    read_buffer: Vec<u8>,
    write_buffer: Vec<u8>,
    write_pos: usize,
}

impl LowLevelLineTransport {
    /// The bytes read from the peer and not yet decoded.
    pub closed spec fn read_view(&self) -> Seq<u8> {
        self.read_buffer@
    }

    /// The encoded bytes not yet accepted by the peer-facing stream.
    pub closed spec fn write_pending_view(&self) -> Seq<u8> {
        self.write_buffer@.subrange(self.write_pos as int, self.write_buffer@.len() as int)
    }

    /// Write-ready means the previous write has fully drained.
    pub closed spec fn write_ready_spec(&self) -> bool {
        self.write_pos == self.write_buffer@.len()
    }

    /// The write position never runs past the buffer.
    pub closed spec fn wf(&self) -> bool {
        self.write_pos <= self.write_buffer@.len()
    }

    /// A fresh transport with empty buffers and nothing pending.
    pub fn new() -> (t: LowLevelLineTransport)
        ensures
            t.wf(),
            t.read_view().len() == 0,
            t.write_ready_spec(),
    {
        LowLevelLineTransport { read_buffer: Vec::new(), write_buffer: Vec::new(), write_pos: 0 }
    }

    /// Append bytes that became readable on the underlying stream.
    pub fn feed(&mut self, bytes: &Vec<u8>)
        requires
            old(self).wf(),
        ensures
            final(self).wf(),
            final(self).read_view() == old(self).read_view() + bytes@,
            final(self).write_pending_view() == old(self).write_pending_view(),
            final(self).write_ready_spec() == old(self).write_ready_spec(),
    {
        buffer::push_all(&mut self.read_buffer, bytes);
    }

    /// Try to decode the next frame out of the read buffer. `Ok(None)`
    /// means no complete frame is buffered yet: the task should suspend
    /// until the stream is readable, feed the new bytes and try again.
    /// Invalid UTF-8 is fatal to the connection.
    pub fn poll_frame(&mut self) -> (r: Result<Option<Vec<u8>>, ProtoError>)
        requires
            old(self).wf(),
        ensures
            final(self).wf(),
            final(self).write_pending_view() == old(self).write_pending_view(),
            final(self).write_ready_spec() == old(self).write_ready_spec(),
            match codec::plain_decode_spec(old(self).read_view()) {
                PlainStep::Incomplete => {
                    &&& r matches Ok(o) && o is None
                    &&& final(self).read_view() == old(self).read_view()
                },
                PlainStep::Line { line, rest } => {
                    &&& r matches Ok(o) && o matches Some(v) && v@ == line
                    &&& final(self).read_view() == rest
                },
                PlainStep::Invalid { rest } => {
                    &&& r matches Err(e) && e == ProtoError::InvalidUtf8
                    &&& final(self).read_view() == rest
                },
            },
    {
        codec::decode_line(&mut self.read_buffer)
    }

    /// Accept one frame for sending, but only when the previous write has
    /// fully drained; otherwise the frame comes back untouched and the
    /// caller must retry after the drain completes. An accepted frame is
    /// encoded into a fresh write buffer at once.
    pub fn start_send(&mut self, msg: Vec<u8>) -> (r: StartSend)
        requires
            old(self).wf(),
        ensures
            final(self).wf(),
            final(self).read_view() == old(self).read_view(),
            old(self).write_ready_spec() ==> {
                &&& r is Ready
                &&& final(self).write_pending_view() == codec::plain_encode_spec(msg@)
            },
            !old(self).write_ready_spec() ==> {
                &&& r matches StartSend::NotReady(m) && m@ == msg@
                &&& final(self).write_pending_view() == old(self).write_pending_view()
                &&& final(self).write_ready_spec() == old(self).write_ready_spec()
            },
    {
        if self.write_pos < self.write_buffer.len() {
            return StartSend::NotReady(msg);
        }
        let mut fresh: Vec<u8> = Vec::new();
        codec::encode_line(&msg, &mut fresh);
        self.write_buffer = fresh;
        self.write_pos = 0;
        proof {
            assert(self.write_pending_view() =~= codec::plain_encode_spec(msg@));
        }
        StartSend::Ready
    }

    /// A copy of the encoded bytes still to be written, for the task to
    /// hand to the underlying stream.
    pub fn pending_bytes(&self) -> (r: Vec<u8>)
        requires
            self.wf(),
        ensures
            r@ == self.write_pending_view(),
    {
        buffer::copy_range(&self.write_buffer, self.write_pos, self.write_buffer.len())
    }

    /// Record that the stream accepted `n` more bytes of the pending write.
    /// Nothing is re-encoded: flushing resumes from where it left off.
    pub fn advance_write(&mut self, n: usize)
        requires
            old(self).wf(),
            n <= old(self).write_pending_view().len(),
        ensures
            final(self).wf(),
            final(self).read_view() == old(self).read_view(),
            final(self).write_pending_view() == old(self).write_pending_view().skip(n as int),
    {
        let len = self.write_buffer.len();
        proof {
            assert(old(self).write_pending_view().len() == len - self.write_pos);
        }
        self.write_pos = self.write_pos + n;
        proof {
            assert(self.write_pending_view() =~= old(self).write_pending_view().skip(n as int));
        }
    }

    /// True exactly when the write buffer has fully drained, so the next
    /// frame can be accepted for sending.
    pub fn write_ready(&self) -> (r: bool)
        requires
            self.wf(),
        ensures
            r == self.write_ready_spec(),
    {
        self.write_pos == self.write_buffer.len()
    }
}

/// Write-readiness is not tracked on its own: it is derived, true exactly
/// when nothing is left pending.
pub proof fn lemma_write_ready_iff_drained(t: LowLevelLineTransport)
    requires
        t.wf(),
    ensures
        t.write_ready_spec() <==> t.write_pending_view().len() == 0,
{
}

/// Build a fresh line transport for one connection.
pub fn new_line_transport() -> (t: LowLevelLineTransport)
    ensures
        t.wf(),
        t.read_view().len() == 0,
        t.write_ready_spec(),
{
    LowLevelLineTransport::new()
}

} // verus!
