//! The pipelined client: request/response correlation by strict FIFO order.
//!
//! No identifier is carried on the wire. Requests are written in submission
//! order and responses are assumed to arrive in exactly that order, so the
//! next inbound frame always resolves the oldest outstanding call. If the
//! peer reorders responses this discipline silently misassigns them; that
//! is a stated wire-level assumption, not something the engine can detect.

use vstd::prelude::*;
use crate::buffer;
use crate::error::ProtoError;
use crate::pending::{CallState, PendingCall};

verus! {

/// Submitting a request appends its token to the back of the queue.
pub open spec fn pipeline_submit(q: Seq<u64>, id: u64) -> Seq<u64> {
    q.push(id)
}

/// The token the next inbound response resolves: the oldest outstanding one.
pub open spec fn pipeline_resolved(q: Seq<u64>) -> u64
    recommends
        q.len() > 0,
{
    q[0]
}

/// The queue after the oldest outstanding call has been resolved.
pub open spec fn pipeline_rest(q: Seq<u64>) -> Seq<u64>
    recommends
        q.len() > 0,
{
    q.subrange(1, q.len() as int)
}

/// The client-side pipeline correlation engine: a FIFO queue of pending
/// calls, each keyed by a token handed back at submission so the caller
/// can tell whose response resolved.
pub struct Client {
    next_id: u64,
    pending: Vec<PendingCall>,
}

impl Client {
    /// The token the next submission will be keyed by.
    pub closed spec fn next_id_spec(&self) -> u64 {
        self.next_id
    }

    /// The tokens of the outstanding calls, oldest first.
    pub closed spec fn pending_ids(&self) -> Seq<u64> {
        self.pending@.map_values(|c: PendingCall| c.id)
    }

    /// Every outstanding call is unresolved, and tokens are fresh and
    /// strictly ordered by submission.
    pub closed spec fn wf(&self) -> bool {
        &&& forall|i: int| 0 <= i < self.pending@.len()
            ==> (#[trigger] self.pending@[i]).state is Waiting && self.pending@[i].id
            < self.next_id
        &&& forall|i: int, j: int|
            0 <= i < j < self.pending@.len()
                ==> (#[trigger] self.pending@[i]).id < (#[trigger] self.pending@[j]).id
    }

    /// A fresh engine with no calls outstanding.
    pub fn new() -> (r: Client)
        ensures
            r.wf(),
            r.pending_ids().len() == 0,
            r.next_id_spec() == 0,
    {
        let c = Client { next_id: 0, pending: Vec::new() };
        proof {
            assert(c.pending_ids() =~= Seq::<u64>::empty());
        }
        c
    }

    /// Submit a request: validate it, enqueue a fresh pending call and hand
    /// back its token. A payload holding the frame delimiter is rejected
    /// here, before any byte could reach a transport.
    pub fn submit(&mut self, req: &Vec<u8>) -> (r: Result<u64, ProtoError>)
        requires
            old(self).wf(),
            old(self).next_id_spec() < u64::MAX,
        ensures
            final(self).wf(),
            !buffer::no_newline(req@) ==> {
                &&& r matches Err(e) && e == ProtoError::InvalidInput
                &&& final(self).pending_ids() == old(self).pending_ids()
                &&& final(self).next_id_spec() == old(self).next_id_spec()
            },
            buffer::no_newline(req@) ==> {
                &&& r matches Ok(id) && id == old(self).next_id_spec()
                &&& !old(self).pending_ids().contains(old(self).next_id_spec())
                &&& final(self).pending_ids() == pipeline_submit(
                    old(self).pending_ids(),
                    old(self).next_id_spec(),
                )
                &&& final(self).next_id_spec() == old(self).next_id_spec() + 1
            },
    {
        if buffer::contains_newline(req) {
            return Err(ProtoError::InvalidInput);
        }
        let id = self.next_id;
        self.pending.push(PendingCall::new(id));
        self.next_id = self.next_id + 1;
        proof {
            assert(self.pending_ids() =~= pipeline_submit(old(self).pending_ids(), id));
            assert forall|k: int| 0 <= k < old(self).pending_ids().len() implies old(
                self,
            ).pending_ids()[k] != id by {
                assert(old(self).pending@[k].id < id);
            }
        }
        Ok(id)
    }

    /// Match an inbound response against the head of the queue: the oldest
    /// outstanding call is resolved with the payload and handed back. A
    /// response with nothing outstanding is a protocol error.
    pub fn on_response(&mut self, payload: Vec<u8>) -> (r: Result<PendingCall, ProtoError>)
        requires
            old(self).wf(),
        ensures
            final(self).wf(),
            final(self).next_id_spec() == old(self).next_id_spec(),
            old(self).pending_ids().len() == 0 ==> {
                &&& r matches Err(e) && e == ProtoError::UnexpectedResponse
                &&& final(self).pending_ids() == old(self).pending_ids()
            },
            old(self).pending_ids().len() > 0 ==> {
                &&& r matches Ok(call) && ({
                    &&& call.id == pipeline_resolved(old(self).pending_ids())
                    &&& call.state matches CallState::Resolved(out) && (out matches Ok(v) && v@
                    == payload@)
                })
                &&& final(self).pending_ids() == pipeline_rest(old(self).pending_ids())
            },
    {
        if self.pending.len() == 0 {
            return Err(ProtoError::UnexpectedResponse);
        }
        let mut call = self.pending.remove(0);
        call.resolve(Ok(payload));
        proof {
            assert(self.pending_ids() =~= pipeline_rest(old(self).pending_ids()));
        }
        Ok(call)
    }

    /// The peer closed the connection: fail every outstanding call with a
    /// "connection closed" error and hand them back, oldest first.
    pub fn on_close(&mut self) -> (r: Vec<PendingCall>)
        requires
            old(self).wf(),
        ensures
            final(self).wf(),
            final(self).next_id_spec() == old(self).next_id_spec(),
            final(self).pending_ids().len() == 0,
            r@.len() == old(self).pending_ids().len(),
            forall|i: int| 0 <= i < r@.len() ==> (#[trigger] r@[i]).id == old(self).pending_ids()[i]
                && r@[i].state == CallState::Resolved(
                Err::<Vec<u8>, ProtoError>(ProtoError::ConnectionClosed),
            ),
    {
        let ghost orig = self.pending@;
        let mut out: Vec<PendingCall> = Vec::new();
        while self.pending.len() > 0
            invariant
                self.next_id == old(self).next_id,
                out@.len() + self.pending@.len() == orig.len(),
                forall|k: int| 0 <= k < self.pending@.len() ==> #[trigger] self.pending@[k]
                    == orig[out@.len() + k],
                forall|k: int| 0 <= k < out@.len() ==> (#[trigger] out@[k]).id == orig[k].id
                    && out@[k].state == CallState::Resolved(
                    Err::<Vec<u8>, ProtoError>(ProtoError::ConnectionClosed),
                ),
                forall|k: int| 0 <= k < orig.len() ==> (#[trigger] orig[k]).state is Waiting,
            decreases self.pending@.len(),
        {
            let mut call = self.pending.remove(0);
            call.resolve(Err(ProtoError::ConnectionClosed));
            out.push(call);
        }
        proof {
            assert(self.pending_ids() =~= Seq::<u64>::empty());
        }
        out
    }
}

/// Pipeline discipline: submitting three requests and receiving their
/// responses in the same order resolves each pending call to the matching
/// response, even though no identifier is on the wire — the first inbound
/// frame resolves the first token, the second the second, the third the
/// third, and nothing is left outstanding.
pub proof fn lemma_pipeline_fifo(a: u64, b: u64, c: u64)
    ensures
        ({
            let q = pipeline_submit(pipeline_submit(pipeline_submit(Seq::<u64>::empty(), a), b), c);
            &&& pipeline_resolved(q) == a
            &&& pipeline_resolved(pipeline_rest(q)) == b
            &&& pipeline_resolved(pipeline_rest(pipeline_rest(q))) == c
            &&& pipeline_rest(pipeline_rest(pipeline_rest(q))).len() == 0
        }),
{
    let q = pipeline_submit(pipeline_submit(pipeline_submit(Seq::<u64>::empty(), a), b), c);
    assert(q =~= seq![a, b, c]);
    assert(pipeline_rest(q) =~= seq![b, c]);
    assert(pipeline_rest(pipeline_rest(q)) =~= seq![c]);
    assert(pipeline_rest(pipeline_rest(pipeline_rest(q))) =~= Seq::<u64>::empty());
}

} // verus!
