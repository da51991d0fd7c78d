//! Bookkeeping for one in-flight request.

use vstd::prelude::*;
use crate::error::ProtoError;

verus! {

/// The completion slot of one in-flight request: empty until the matching
/// response (or a connection failure) arrives.
pub enum CallState {
    Waiting,
    Resolved(Result<Vec<u8>, ProtoError>),
}

/// One in-flight request: the identifier the correlation engine keys it by
/// (a fresh token under pipelining, the wire request id under multiplexing)
/// and a completion slot that is resolved exactly once.
pub struct PendingCall {
    pub id: u64,
    pub state: CallState,
}

impl PendingCall {
    /// A fresh, unresolved call.
    pub fn new(id: u64) -> (r: PendingCall)
        ensures
            r.id == id,
            r.state is Waiting,
    {
        PendingCall { id, state: CallState::Waiting }
    }

    /// Fill the completion slot. The precondition makes "resolved exactly
    /// once" a verified discipline: a resolved call cannot be resolved
    /// again.
    pub fn resolve(&mut self, outcome: Result<Vec<u8>, ProtoError>)
        requires
            old(self).state is Waiting,
        ensures
            final(self).id == old(self).id,
            final(self).state == CallState::Resolved(outcome),
    {
        self.state = CallState::Resolved(outcome);
    }
}

} // verus!
