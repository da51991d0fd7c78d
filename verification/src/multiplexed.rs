//! The multiplexed line protocol: a frame is a 4-byte big-endian request id
//! followed by the UTF-8 payload and the `\n` delimiter, minimum frame size
//! five bytes. The delimiter search starts at offset 4, so an id byte can
//! never be misread as the delimiter.
//!
//! The module also holds the multiplex correlation engine: a mapping from
//! request id to pending call, resolving responses in whatever order they
//! arrive.

use vstd::prelude::*;
use crate::buffer;
use crate::buffer::NL;
use crate::error::ProtoError;
use crate::pending::{CallState, PendingCall};
use crate::service::Service;
use crate::utf8;

verus! {

/// The big-endian bytes of a request id, most significant first.
pub open spec fn be_bytes(id: u32) -> Seq<u8> {
    seq![
        ((id >> 24) & 0xff) as u8,
        ((id >> 16) & 0xff) as u8,
        ((id >> 8) & 0xff) as u8,
        (id & 0xff) as u8,
    ]
}

/// The request id read from four big-endian bytes.
pub open spec fn be_u32(b: Seq<u8>) -> u32 {
    (((b[0] as u32) << 24) | ((b[1] as u32) << 16) | ((b[2] as u32) << 8) | (b[3] as u32)) as u32
}

/// Reading back the four bytes of an id yields the id.
pub proof fn lemma_be_round_trip(id: u32)
    ensures
        be_u32(be_bytes(id)) == id,
{
    let b0 = (id >> 24) & 0xff;
    let b1 = (id >> 16) & 0xff;
    let b2 = (id >> 8) & 0xff;
    let b3 = id & 0xff;
    assert(((b0 << 24) | (b1 << 16) | (b2 << 8) | b3) == id) by (bit_vector)
        requires
            b0 == (id >> 24) & 0xff,
            b1 == (id >> 16) & 0xff,
            b2 == (id >> 8) & 0xff,
            b3 == id & 0xff,
    ;
    assert(b0 < 256 && b1 < 256 && b2 < 256 && b3 < 256) by (bit_vector)
        requires
            b0 == (id >> 24) & 0xff,
            b1 == (id >> 16) & 0xff,
            b2 == (id >> 8) & 0xff,
            b3 == id & 0xff,
    ;
}

/// What one multiplexed decode step does to a buffer.
pub enum MuxStep {
    Incomplete,
    Frame { id: u32, line: Seq<u8>, rest: Seq<u8> },
    Invalid { rest: Seq<u8> },
}

/// The multiplexed decode relation: nothing is attempted below five buffered
/// bytes, the delimiter search skips the id, and the payload must be UTF-8.
pub open spec fn mux_decode_spec(buf: Seq<u8>) -> MuxStep {
    if buf.len() < 5 {
        MuxStep::Incomplete
    } else {
        let n = buffer::find_newline_spec(buf, 4);
        if n == buf.len() {
            MuxStep::Incomplete
        } else {
            let line = buf.subrange(4, n);
            let rest = buf.subrange(n + 1, buf.len() as int);
            if utf8::is_utf8(line) {
                MuxStep::Frame { id: be_u32(buf.subrange(0, 4)), line, rest }
            } else {
                MuxStep::Invalid { rest }
            }
        }
    }
}

/// The multiplexed encoding: four id bytes, the payload, the delimiter.
pub open spec fn mux_encode_spec(id: u32, p: Seq<u8>) -> Seq<u8> {
    be_bytes(id) + p + seq![NL]
}

/// The multiplexed line codec. Like its plain counterpart it keeps no
/// state; frames carry the correlation id explicitly.
pub struct LineCodec;

impl LineCodec {
    /// Decode one `(id, payload)` frame from the front of `buf`.
    ///
    /// `Ok(None)` means not enough data: fewer than five bytes buffered, or
    /// no delimiter after the id yet. Invalid UTF-8 in the payload is a
    /// connection-fatal decode error, with the frame already consumed.
    pub fn decode(&mut self, buf: &mut Vec<u8>) -> (r: Result<Option<(u32, Vec<u8>)>, ProtoError>)
        ensures
            match mux_decode_spec(old(buf)@) {
                MuxStep::Incomplete => {
                    &&& r matches Ok(o) && o is None
                    &&& final(buf)@ == old(buf)@
                },
                MuxStep::Frame { id, line, rest } => {
                    &&& r matches Ok(o) && o matches Some((i, v)) && i == id && v@ == line
                    &&& final(buf)@ == rest
                },
                MuxStep::Invalid { rest } => {
                    &&& r matches Err(e) && e == ProtoError::InvalidUtf8
                    &&& final(buf)@ == rest
                },
            },
    {
        if buf.len() < 5 {
            return Ok(None);
        }
        let n = buffer::find_newline(buf, 4);
        proof {
            buffer::lemma_find_newline_props(buf@, 4);
        }
        if n == buf.len() {
            return Ok(None);
        }
        let id = read_be_u32(buf);
        let line = buffer::copy_range(buf, 4, n);
        buffer::drop_prefix(buf, n + 1);
        if utf8::utf8_ok(line.as_slice()) {
            Ok(Some((id, line)))
        } else {
            Err(ProtoError::InvalidUtf8)
        }
    }

    /// Append the encoding of `(id, msg)` to `buf`.
    pub fn encode(&mut self, id: u32, msg: &Vec<u8>, buf: &mut Vec<u8>)
        ensures
            final(buf)@ == old(buf)@ + mux_encode_spec(id, msg@),
    {
        write_be_u32(buf, id);
        buffer::push_all(buf, msg);
        buf.push(NL);
        proof {
            assert(buf@ =~= old(buf)@ + mux_encode_spec(id, msg@));
        }
    }
}

/// Read the big-endian request id from the first four bytes of `buf`.
fn read_be_u32(buf: &Vec<u8>) -> (r: u32)
    requires
        buf@.len() >= 4,
    ensures
        r == be_u32(buf@.subrange(0, 4)),
{
    let b0 = buf[0] as u32;
    let b1 = buf[1] as u32;
    let b2 = buf[2] as u32;
    let b3 = buf[3] as u32;
    (b0 << 24) | (b1 << 16) | (b2 << 8) | b3
}

/// Append the big-endian bytes of `id` to `buf`.
fn write_be_u32(buf: &mut Vec<u8>, id: u32)
    ensures
        final(buf)@ == old(buf)@ + be_bytes(id),
{
    proof {
        let b0 = (id >> 24) & 0xff;
        let b1 = (id >> 16) & 0xff;
        let b2 = (id >> 8) & 0xff;
        let b3 = id & 0xff;
        assert(b0 < 256 && b1 < 256 && b2 < 256 && b3 < 256) by (bit_vector)
            requires
                b0 == (id >> 24) & 0xff,
                b1 == (id >> 16) & 0xff,
                b2 == (id >> 8) & 0xff,
                b3 == id & 0xff,
        ;
    }
    buf.push(((id >> 24) & 0xff) as u8);
    buf.push(((id >> 16) & 0xff) as u8);
    buf.push(((id >> 8) & 0xff) as u8);
    buf.push((id & 0xff) as u8);
    proof {
        assert(buf@ =~= old(buf)@ + be_bytes(id));
    }
}

/// One server-side dispatch step for the multiplexed discipline: decode
/// the next `(id, request)` frame off the read buffer, hand the bare
/// payload to the service, and encode whatever response it produced under
/// the same request id. The wire correlation metadata is wrapped and
/// unwrapped here; the service never sees it.
///
/// `Ok(None)` means no complete frame is buffered yet. On success the id
/// and the request/response pair are handed back, and the response frame —
/// carrying the inbound frame's id — has been appended to the write
/// buffer; a decode failure or a service error is passed through with the
/// write buffer untouched.
pub fn dispatch_one<S: Service<Vec<u8>, Vec<u8>>>(
    svc: &mut S,
    read: &mut Vec<u8>,
    write: &mut Vec<u8>,
) -> (r: Result<Option<(u32, Vec<u8>, Vec<u8>)>, ProtoError>)
    ensures
        match mux_decode_spec(old(read)@) {
            MuxStep::Incomplete => {
                &&& r matches Ok(o) && o is None
                &&& final(read)@ == old(read)@
                &&& final(write)@ == old(write)@
            },
            MuxStep::Frame { id, line, rest } => {
                &&& final(read)@ == rest
                &&& r matches Ok(o) ==> (o matches Some((rid, rq, rs)) && ({
                    &&& rid == id
                    &&& rq@ == line
                    &&& final(write)@ == old(write)@ + mux_encode_spec(id, rs@)
                }))
                &&& r is Err ==> final(write)@ == old(write)@
            },
            MuxStep::Invalid { rest } => {
                &&& r matches Err(e) && e == ProtoError::InvalidUtf8
                &&& final(read)@ == rest
                &&& final(write)@ == old(write)@
            },
        },
{
    let mut codec = LineCodec;
    let (id, req) = match codec.decode(read) {
        Ok(Some(frame)) => frame,
        Ok(None) => {
            return Ok(None);
        },
        Err(e) => {
            return Err(e);
        },
    };
    let req_copy = buffer::copy_range(&req, 0, req.len());
    let reply = match svc.call(req) {
        Ok(resp) => resp,
        Err(e) => {
            return Err(e);
        },
    };
    let reply_copy = buffer::copy_range(&reply, 0, reply.len());
    proof {
        assert(req_copy@ =~= req@);
        assert(reply_copy@ =~= reply@);
    }
    codec.encode(id, &reply, write);
    Ok(Some((id, req_copy, reply_copy)))
}

/// Submitting a request adds its id to the outstanding ones.
pub open spec fn mux_submit(q: Seq<u64>, id: u64) -> Seq<u64> {
    q.push(id)
}

/// Resolving a response removes the matching id, wherever it sits.
pub open spec fn mux_resolve(q: Seq<u64>, id: u64) -> Seq<u64> {
    q.remove_value(id)
}

/// The client-side multiplex correlation engine: a mapping from request id
/// to pending call. Requests may complete in any order; an inbound frame
/// resolves exactly the entry with its id, and an id with no entry is a
/// connection-level protocol error.
pub struct Client {
    next_id: u32,
    pending: Vec<PendingCall>,
}

impl Client {
    /// The id the next submission will be tagged with.
    pub closed spec fn next_id_spec(&self) -> u32 {
        self.next_id
    }

    /// The ids of the outstanding calls, in submission order.
    pub closed spec fn pending_ids(&self) -> Seq<u64> {
        self.pending@.map_values(|c: PendingCall| c.id)
    }

    /// Every outstanding call is unresolved and its id is fresh: below the
    /// next id to be assigned, and held by no other outstanding call.
    pub closed spec fn wf(&self) -> bool {
        &&& forall|i: int| 0 <= i < self.pending@.len()
            ==> (#[trigger] self.pending@[i]).state is Waiting && self.pending@[i].id
            < self.next_id as u64
        &&& forall|i: int, j: int|
            0 <= i < j < self.pending@.len()
                ==> (#[trigger] self.pending@[i]).id != (#[trigger] self.pending@[j]).id
    }

    /// A fresh engine with no calls outstanding.
    pub fn new() -> (r: Client)
        ensures
            r.wf(),
            r.pending_ids().len() == 0,
            r.next_id_spec() == 0,
    {
        let c = Client { next_id: 0, pending: Vec::new() };
        proof {
            assert(c.pending_ids() =~= Seq::<u64>::empty());
        }
        c
    }

    /// Submit a request: validate it, pick a fresh request id, record the
    /// pending call under that id and hand the id back for tagging the wire
    /// frame. A payload holding the frame delimiter is rejected here,
    /// before any byte could reach a transport.
    pub fn submit(&mut self, req: &Vec<u8>) -> (r: Result<u32, ProtoError>)
        requires
            old(self).wf(),
            old(self).next_id_spec() < u32::MAX,
        ensures
            final(self).wf(),
            !buffer::no_newline(req@) ==> {
                &&& r matches Err(e) && e == ProtoError::InvalidInput
                &&& final(self).pending_ids() == old(self).pending_ids()
                &&& final(self).next_id_spec() == old(self).next_id_spec()
            },
            buffer::no_newline(req@) ==> {
                &&& r matches Ok(id) && id == old(self).next_id_spec()
                &&& !old(self).pending_ids().contains(old(self).next_id_spec() as u64)
                &&& final(self).pending_ids() == mux_submit(
                    old(self).pending_ids(),
                    old(self).next_id_spec() as u64,
                )
                &&& final(self).next_id_spec() == old(self).next_id_spec() + 1
            },
    {
        if buffer::contains_newline(req) {
            return Err(ProtoError::InvalidInput);
        }
        let id = self.next_id;
        self.pending.push(PendingCall::new(id as u64));
        self.next_id = self.next_id + 1;
        proof {
            assert(self.pending_ids() =~= mux_submit(old(self).pending_ids(), id as u64));
            assert forall|k: int| 0 <= k < old(self).pending_ids().len() implies old(
                self,
            ).pending_ids()[k] != id as u64 by {
                assert(old(self).pending@[k].id < id as u64);
            }
        }
        Ok(id)
    }

    /// Resolve the pending call with the response's id, in whatever order
    /// responses arrive. An id with no matching entry is a stale or
    /// duplicate id: a connection-level protocol error, and the engine is
    /// left unchanged.
    pub fn on_response(&mut self, id: u32, payload: Vec<u8>) -> (r: Result<
        PendingCall,
        ProtoError,
    >)
        requires
            old(self).wf(),
        ensures
            final(self).wf(),
            final(self).next_id_spec() == old(self).next_id_spec(),
            !old(self).pending_ids().contains(id as u64) ==> {
                &&& r matches Err(e) && e == ProtoError::UnknownRequestId
                &&& final(self).pending_ids() == old(self).pending_ids()
            },
            old(self).pending_ids().contains(id as u64) ==> {
                &&& r matches Ok(call) && ({
                    &&& call.id == id as u64
                    &&& call.state matches CallState::Resolved(out) && (out matches Ok(v) && v@
                    == payload@)
                })
                &&& final(self).pending_ids() == mux_resolve(old(self).pending_ids(), id as u64)
            },
    {
        let ghost ids = self.pending_ids();
        let mut i: usize = 0;
        while i < self.pending.len()
            invariant
                old(self).wf(),
                *self == *old(self),
                ids == self.pending_ids(),
                i <= self.pending@.len(),
                forall|k: int| 0 <= k < i ==> #[trigger] ids[k] != id as u64,
            decreases self.pending@.len() - i,
        {
            if self.pending[i].id == id as u64 {
                let ghost before = self.pending@;
                let mut call = self.pending.remove(i);
                call.resolve(Ok(payload));
                proof {
                    assert(self.pending_ids() =~= ids.remove(i as int));
                    assert forall|k: int| 0 <= k < self.pending@.len() implies (#[trigger] self
                        .pending@[k]).state is Waiting && self.pending@[k].id
                        < self.next_id as u64 by {
                        if k < i as int {
                            assert(self.pending@[k] == before[k]);
                        } else {
                            assert(self.pending@[k] == before[k + 1]);
                        }
                    }
                    assert forall|k: int, l: int|
                        0 <= k < l < self.pending@.len() implies (#[trigger] self.pending@[k]).id
                        != (#[trigger] self.pending@[l]).id by {
                        let k0 = if k < i as int { k } else { k + 1 };
                        let l0 = if l < i as int { l } else { l + 1 };
                        assert(self.pending@[k] == before[k0]);
                        assert(self.pending@[l] == before[l0]);
                    }
                    assert(ids[i as int] == id as u64);
                    ids.index_of_first_ensures(id as u64);
                    let idx = ids.index_of_first(id as u64).unwrap();
                    if idx < i as int {
                        assert(ids[idx] != id as u64);
                    }
                    assert(idx == i as int);
                    assert(self.pending_ids() == mux_resolve(old(self).pending_ids(), id as u64));
                }
                return Ok(call);
            }
            i = i + 1;
        }
        proof {
            assert forall|k: int| 0 <= k < ids.len() implies #[trigger] ids[k] != id as u64 by {}
            assert(!ids.contains(id as u64));
        }
        Err(ProtoError::UnknownRequestId)
    }

    /// The peer closed the connection: fail every outstanding call with a
    /// "connection closed" error and hand them back, in submission order.
    pub fn on_close(&mut self) -> (r: Vec<PendingCall>)
        requires
            old(self).wf(),
        ensures
            final(self).wf(),
            final(self).next_id_spec() == old(self).next_id_spec(),
            final(self).pending_ids().len() == 0,
            r@.len() == old(self).pending_ids().len(),
            forall|i: int| 0 <= i < r@.len() ==> (#[trigger] r@[i]).id == old(self).pending_ids()[i]
                && r@[i].state == CallState::Resolved(
                Err::<Vec<u8>, ProtoError>(ProtoError::ConnectionClosed),
            ),
    {
        let ghost orig = self.pending@;
        let mut out: Vec<PendingCall> = Vec::new();
        while self.pending.len() > 0
            invariant
                self.next_id == old(self).next_id,
                out@.len() + self.pending@.len() == orig.len(),
                forall|k: int| 0 <= k < self.pending@.len() ==> #[trigger] self.pending@[k]
                    == orig[out@.len() + k],
                forall|k: int| 0 <= k < out@.len() ==> (#[trigger] out@[k]).id == orig[k].id
                    && out@[k].state == CallState::Resolved(
                    Err::<Vec<u8>, ProtoError>(ProtoError::ConnectionClosed),
                ),
                forall|k: int| 0 <= k < orig.len() ==> (#[trigger] orig[k]).state is Waiting,
            decreases self.pending@.len(),
        {
            let mut call = self.pending.remove(0);
            call.resolve(Err(ProtoError::ConnectionClosed));
            out.push(call);
        }
        proof {
            assert(self.pending_ids() =~= Seq::<u64>::empty());
        }
        out
    }
}

/// Multiplex discipline: with two requests outstanding under distinct ids,
/// the responses may arrive in either order — resolving the second id
/// first succeeds and leaves exactly the first outstanding, and resolving
/// the first then empties the engine. Each response resolves precisely the
/// entry carrying its id.
pub proof fn lemma_mux_out_of_order(id_a: u64, id_b: u64)
    requires
        id_a != id_b,
    ensures
        ({
            let q = mux_submit(mux_submit(Seq::<u64>::empty(), id_a), id_b);
            &&& q.contains(id_b)
            &&& mux_resolve(q, id_b).contains(id_a)
            &&& mux_resolve(mux_resolve(q, id_b), id_a).len() == 0
        }),
{
    let q = mux_submit(mux_submit(Seq::<u64>::empty(), id_a), id_b);
    assert(q =~= seq![id_a, id_b]);
    assert(q[1] == id_b);
    q.index_of_first_ensures(id_b);
    let i = q.index_of_first(id_b).unwrap();
    assert(i == 1);
    let q1 = mux_resolve(q, id_b);
    assert(q1 =~= seq![id_a]);
    assert(q1[0] == id_a);
    q1.index_of_first_ensures(id_a);
    let j = q1.index_of_first(id_a).unwrap();
    assert(j == 0);
    assert(mux_resolve(q1, id_a) =~= Seq::<u64>::empty());
}

/// Round trip: an encoded `(id, payload)` frame, with any trailing bytes,
/// decodes back to the same id and the same payload, leaving the trailing
/// bytes in the buffer.
pub proof fn lemma_mux_round_trip(id: u32, p: Seq<u8>, rest: Seq<u8>)
    requires
        buffer::no_newline(p),
    ensures
        utf8::is_utf8(p) ==> mux_decode_spec(mux_encode_spec(id, p) + rest)
            == (MuxStep::Frame { id, line: p, rest }),
{
    let buf = mux_encode_spec(id, p) + rest;
    assert(buf.len() >= 5);
    assert(buf[4 + p.len() as int] == NL);
    assert(forall|i: int| 4 <= i < 4 + p.len() as int ==> buf[i] == p[i - 4] && buf[i] != NL);
    buffer::lemma_find_newline_at(buf, 4, 4 + p.len() as int);
    assert(buf.subrange(4, 4 + p.len() as int) =~= p);
    assert(buf.subrange(4 + p.len() as int + 1, buf.len() as int) =~= rest);
    assert(buf.subrange(0, 4) =~= be_bytes(id));
    lemma_be_round_trip(id);
}

} // verus!
