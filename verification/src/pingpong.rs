//! Keep-alive middleware around the transport.
//!
//! An inbound `"[ping]"` frame is intercepted — it never surfaces as an
//! observable frame — and a `"[pong]"` reply becomes owed to the peer. A
//! new application frame is accepted for sending only while no pongs are
//! owed, so replies can never be starved or reordered behind a backlog of
//! outbound application traffic; flushing pays the owed pongs off one
//! frame at a time, stopping without error the moment the transport
//! cannot accept more.

use vstd::prelude::*;
use crate::buffer;
use crate::codec;
use crate::codec::PlainStep;
use crate::error::ProtoError;
use crate::low_level_transport::{LowLevelLineTransport, StartSend};

verus! {

/// The bytes of the keep-alive request token `"[ping]"`.
pub open spec fn ping_bytes() -> Seq<u8> {
    seq![91u8, 112u8, 105u8, 110u8, 103u8, 93u8]
}

/// The bytes of the keep-alive reply token `"[pong]"`.
pub open spec fn pong_bytes() -> Seq<u8> {
    seq![91u8, 112u8, 111u8, 110u8, 103u8, 93u8]
}

/// The keep-alive request payload, `"[ping]"`.
pub fn ping_payload() -> (r: Vec<u8>)
    ensures
        r@ == ping_bytes(),
{
    let mut v: Vec<u8> = Vec::new();
    v.push(91);
    v.push(112);
    v.push(105);
    v.push(110);
    v.push(103);
    v.push(93);
    proof {
        assert(v@ =~= ping_bytes());
    }
    v
}

/// The keep-alive reply payload, `"[pong]"`.
pub fn pong_payload() -> (r: Vec<u8>)
    ensures
        r@ == pong_bytes(),
{
    let mut v: Vec<u8> = Vec::new();
    v.push(91);
    v.push(112);
    v.push(111);
    v.push(110);
    v.push(103);
    v.push(93);
    proof {
        assert(v@ =~= pong_bytes());
    }
    v
}

/// The client-side check of a ping's reply: anything but the pong token is
/// an error, as the ping helper of the plain client promises.
pub fn check_ping_reply(resp: &Vec<u8>) -> (r: Result<(), ProtoError>)
    ensures
        resp@ == pong_bytes() ==> r is Ok,
        resp@ != pong_bytes() ==> (r matches Err(e) && e == ProtoError::ExpectedPong),
{
    let pong = pong_payload();
    if buffer::bytes_eq(resp, &pong) {
        Ok(())
    } else {
        Err(ProtoError::ExpectedPong)
    }
}

/// What scanning the read buffer past any leading pings yields: the number
/// of intercepted pings, and then either "not enough data" (with the bytes
/// that remain), the first real frame, or a decode error.
pub enum PingScan {
    Incomplete { rest: Seq<u8>, pings: nat },
    Frame { line: Seq<u8>, rest: Seq<u8>, pings: nat },
    Invalid { rest: Seq<u8>, pings: nat },
}

/// Scan the buffered bytes, consuming ping frames until the first frame
/// that is not a ping (or the buffer runs out, or decoding fails).
pub open spec fn ping_scan(read: Seq<u8>) -> PingScan
    decreases read.len(),
    via ping_scan_dec
{
    match codec::plain_decode_spec(read) {
        PlainStep::Incomplete => PingScan::Incomplete { rest: read, pings: 0 },
        PlainStep::Line { line, rest } => {
            if line == ping_bytes() {
                add_pings(ping_scan(rest), 1)
            } else {
                PingScan::Frame { line, rest, pings: 0 }
            }
        },
        PlainStep::Invalid { rest } => PingScan::Invalid { rest, pings: 0 },
    }
}

#[via_fn]
proof fn ping_scan_dec(read: Seq<u8>) {
    buffer::lemma_find_newline_props(read, 0);
}

/// The same scan outcome with `k` more intercepted pings in front of it.
pub open spec fn add_pings(s: PingScan, k: nat) -> PingScan {
    match s {
        PingScan::Incomplete { rest, pings } => PingScan::Incomplete { rest, pings: pings + k },
        PingScan::Frame { line, rest, pings } => PingScan::Frame { line, rest, pings: pings + k },
        PingScan::Invalid { rest, pings } => PingScan::Invalid { rest, pings: pings + k },
    }
}

proof fn lemma_add_pings_compose(s: PingScan, a: nat, b: nat)
    ensures
        add_pings(add_pings(s, a), b) == add_pings(s, a + b),
{
}

/// The keep-alive token is never the frame a scan surfaces: an inbound
/// ping is always intercepted, whatever else is in the buffer.
pub proof fn lemma_ping_never_surfaces(read: Seq<u8>)
    ensures
        ping_scan(read) matches PingScan::Frame { line, .. } ==> line != ping_bytes(),
    decreases read.len(),
{
    match codec::plain_decode_spec(read) {
        PlainStep::Line { line, rest } => {
            if line == ping_bytes() {
                buffer::lemma_find_newline_props(read, 0);
                lemma_ping_never_surfaces(rest);
            }
        },
        PlainStep::Incomplete => {},
        PlainStep::Invalid { .. } => {},
    }
}

/// Pong counters saturate instead of wrapping; the cap is unreachable in
/// any real exchange.
pub open spec fn sat_add64(a: u64, b: nat) -> u64 {
    if a + b <= u64::MAX {
        (a + b) as u64
    } else {
        u64::MAX
    }
}

/// As on the bare transport, write-readiness is derived: true exactly
/// when nothing is left pending.
pub proof fn lemma_pingpong_write_ready_iff_drained(t: PingPong)
    requires
        t.wf(),
    ensures
        t.write_ready_spec() <==> t.write_pending_view().len() == 0,
{
    crate::low_level_transport::lemma_write_ready_iff_drained(t.inner);
}

/// The keep-alive decorator around a connection's transport. It owns the
/// transport and a counter of pong replies owed to the peer.
pub struct PingPong {
    inner: LowLevelLineTransport,
    pending_pongs: u64,
}

impl PingPong {
    /// The bytes read from the peer and not yet decoded.
    pub closed spec fn read_view(&self) -> Seq<u8> {
        self.inner.read_view()
    }

    /// The encoded bytes not yet accepted by the peer-facing stream.
    pub closed spec fn write_pending_view(&self) -> Seq<u8> {
        self.inner.write_pending_view()
    }

    /// Whether the transport can accept a frame for sending.
    pub closed spec fn write_ready_spec(&self) -> bool {
        self.inner.write_ready_spec()
    }

    /// How many pong replies are owed to the peer.
    pub closed spec fn pongs_owed(&self) -> u64 {
        self.pending_pongs
    }

    pub closed spec fn wf(&self) -> bool {
        self.inner.wf()
    }

    /// Decorate `inner` with keep-alive handling; no pongs are owed yet.
    pub fn new(inner: LowLevelLineTransport) -> (r: PingPong)
        requires
            inner.wf(),
        ensures
            r.wf(),
            r.read_view() == inner.read_view(),
            r.write_pending_view() == inner.write_pending_view(),
            r.write_ready_spec() == inner.write_ready_spec(),
            r.pongs_owed() == 0,
    {
        PingPong { inner, pending_pongs: 0 }
    }

    /// Append bytes that became readable on the underlying stream.
    pub fn feed(&mut self, bytes: &Vec<u8>)
        requires
            old(self).wf(),
        ensures
            final(self).wf(),
            final(self).read_view() == old(self).read_view() + bytes@,
            final(self).write_pending_view() == old(self).write_pending_view(),
            final(self).write_ready_spec() == old(self).write_ready_spec(),
            final(self).pongs_owed() == old(self).pongs_owed(),
    {
        self.inner.feed(bytes);
    }

    /// What interception does to the write side and the pong counter when
    /// `pings` pings were taken off the read buffer: the first one is
    /// answered on the spot if the transport could take a frame, and every
    /// other owed pong is counted for a later flush.
    pub open spec fn pong_effects(pre: PingPong, post: PingPong, pings: nat) -> bool {
        if pings == 0 {
            &&& post.pongs_owed() == pre.pongs_owed()
            &&& post.write_pending_view() == pre.write_pending_view()
            &&& post.write_ready_spec() == pre.write_ready_spec()
        } else if pre.write_ready_spec() {
            &&& post.pongs_owed() == sat_add64(pre.pongs_owed(), (pings - 1) as nat)
            &&& post.write_pending_view() == codec::plain_encode_spec(pong_bytes())
        } else {
            &&& post.pongs_owed() == sat_add64(pre.pongs_owed(), pings)
            &&& post.write_pending_view() == pre.write_pending_view()
            &&& post.write_ready_spec() == pre.write_ready_spec()
        }
    }

    /// Poll for the next real frame. Pings are intercepted on the way and
    /// never surface to the caller: each one owes the peer a pong, and a
    /// reply is flushed on the spot when the transport can take it.
    pub fn poll_frame(&mut self) -> (r: Result<Option<Vec<u8>>, ProtoError>)
        requires
            old(self).wf(),
        ensures
            final(self).wf(),
            match ping_scan(old(self).read_view()) {
                PingScan::Incomplete { rest, pings } => {
                    &&& r matches Ok(o) && o is None
                    &&& final(self).read_view() == rest
                    &&& PingPong::pong_effects(*old(self), *final(self), pings)
                },
                PingScan::Frame { line, rest, pings } => {
                    &&& r matches Ok(o) && o matches Some(v) && v@ == line
                    &&& line != ping_bytes()
                    &&& final(self).read_view() == rest
                    &&& PingPong::pong_effects(*old(self), *final(self), pings)
                },
                PingScan::Invalid { rest, pings } => {
                    &&& r matches Err(e) && e == ProtoError::InvalidUtf8
                    &&& final(self).read_view() == rest
                    &&& PingPong::pong_effects(*old(self), *final(self), pings)
                },
            },
    {
        let ping = ping_payload();
        let ghost mut k: nat = 0;
        let ghost mut wrote: bool = false;
        loop
            invariant
                self.wf(),
                ping@ == ping_bytes(),
                ping_scan(old(self).read_view()) == add_pings(ping_scan(self.read_view()), k),
                !wrote ==> ({
                    &&& self.pending_pongs == sat_add64(old(self).pongs_owed(), k)
                    &&& self.write_pending_view() == old(self).write_pending_view()
                    &&& self.write_ready_spec() == old(self).write_ready_spec()
                    &&& k >= 1 ==> !old(self).write_ready_spec()
                }),
                wrote ==> ({
                    &&& k >= 1
                    &&& old(self).write_ready_spec()
                    &&& self.pending_pongs == sat_add64(old(self).pongs_owed(), (k - 1) as nat)
                    &&& self.write_pending_view() == codec::plain_encode_spec(pong_bytes())
                }),
            decreases self.read_view().len(),
        {
            let ghost cur = self.read_view();
            let step = self.inner.poll_frame();
            match step {
                Ok(Some(line)) => {
                    if buffer::bytes_eq(&line, &ping) {
                        proof {
                            buffer::lemma_find_newline_props(cur, 0);
                            let rest = self.read_view();
                            assert(ping_scan(cur) == add_pings(ping_scan(rest), 1));
                            lemma_add_pings_compose(ping_scan(rest), 1, k);
                        }
                        if self.inner.write_ready() {
                            proof {
                                crate::low_level_transport::lemma_write_ready_iff_drained(
                                    self.inner,
                                );
                                assert(!wrote);
                            }
                            match self.inner.start_send(pong_payload()) {
                                StartSend::Ready => {},
                                StartSend::NotReady(_) => {
                                    proof {
                                        assert(false);
                                    }
                                },
                            }
                            proof {
                                wrote = true;
                            }
                        } else {
                            self.pending_pongs = if self.pending_pongs < u64::MAX {
                                self.pending_pongs + 1
                            } else {
                                u64::MAX
                            };
                        }
                        proof {
                            k = k + 1;
                        }
                    } else {
                        return Ok(Some(line));
                    }
                },
                Ok(None) => {
                    return Ok(None);
                },
                Err(e) => {
                    return Err(e);
                },
            }
        }
    }

    /// Accept one application frame for sending, but only when no pongs
    /// are owed: owed replies are never starved by, nor reordered behind,
    /// outbound application traffic. With nothing owed, the underlying
    /// transport decides as usual.
    pub fn start_send(&mut self, msg: Vec<u8>) -> (r: StartSend)
        requires
            old(self).wf(),
        ensures
            final(self).wf(),
            final(self).read_view() == old(self).read_view(),
            final(self).pongs_owed() == old(self).pongs_owed(),
            old(self).pongs_owed() > 0 ==> ({
                &&& r matches StartSend::NotReady(m) && m@ == msg@
                &&& final(self).write_pending_view() == old(self).write_pending_view()
                &&& final(self).write_ready_spec() == old(self).write_ready_spec()
            }),
            old(self).pongs_owed() == 0 && old(self).write_ready_spec() ==> ({
                &&& r is Ready
                &&& final(self).write_pending_view() == codec::plain_encode_spec(msg@)
            }),
            old(self).pongs_owed() == 0 && !old(self).write_ready_spec() ==> ({
                &&& r matches StartSend::NotReady(m) && m@ == msg@
                &&& final(self).write_pending_view() == old(self).write_pending_view()
                &&& final(self).write_ready_spec() == old(self).write_ready_spec()
            }),
    {
        if self.pending_pongs > 0 {
            return StartSend::NotReady(msg);
        }
        self.inner.start_send(msg)
    }

    /// Pay off one owed pong if the transport can take it right now:
    /// `true` exactly when a pong was encoded for sending. The caller
    /// drains the transport and calls again until nothing is owed.
    pub fn flush_pongs(&mut self) -> (sent: bool)
        requires
            old(self).wf(),
        ensures
            final(self).wf(),
            final(self).read_view() == old(self).read_view(),
            old(self).pongs_owed() > 0 && old(self).write_ready_spec() ==> ({
                &&& sent
                &&& final(self).pongs_owed() == old(self).pongs_owed() - 1
                &&& final(self).write_pending_view() == codec::plain_encode_spec(pong_bytes())
            }),
            !(old(self).pongs_owed() > 0 && old(self).write_ready_spec()) ==> ({
                &&& !sent
                &&& final(self).pongs_owed() == old(self).pongs_owed()
                &&& final(self).write_pending_view() == old(self).write_pending_view()
                &&& final(self).write_ready_spec() == old(self).write_ready_spec()
            }),
    {
        if self.pending_pongs > 0 && self.inner.write_ready() {
            match self.inner.start_send(pong_payload()) {
                StartSend::Ready => {
                    self.pending_pongs = self.pending_pongs - 1;
                    true
                },
                StartSend::NotReady(_) => {
                    proof {
                        assert(false);
                    }
                    false
                },
            }
        } else {
            false
        }
    }

    /// A copy of the encoded bytes still to be written.
    pub fn pending_bytes(&self) -> (r: Vec<u8>)
        requires
            self.wf(),
        ensures
            r@ == self.write_pending_view(),
    {
        self.inner.pending_bytes()
    }

    /// Record that the stream accepted `n` more bytes of the pending write.
    pub fn advance_write(&mut self, n: usize)
        requires
            old(self).wf(),
            n <= old(self).write_pending_view().len(),
        ensures
            final(self).wf(),
            final(self).read_view() == old(self).read_view(),
            final(self).pongs_owed() == old(self).pongs_owed(),
            final(self).write_pending_view() == old(self).write_pending_view().skip(n as int),
    {
        self.inner.advance_write(n);
    }

    /// Whether the transport can accept a frame for sending right now.
    pub fn write_ready(&self) -> (r: bool)
        requires
            self.wf(),
        ensures
            r == self.write_ready_spec(),
    {
        self.inner.write_ready()
    }
}

} // verus!
