//! Deadline middleware around a service call.
//!
//! A call is raced against a fixed duration; whichever resolves first
//! wins. The race itself — timers, suspension — belongs to the
//! surrounding runtime: it reports which side won, and the decision here
//! turns that into the caller's outcome. On a timeout the caller gets a
//! timeout error; the underlying call is not forcibly aborted, so it may
//! still complete later and its result is discarded.

use vstd::prelude::*;
use crate::error::ProtoError;

verus! {

/// Which side of the race finished first: the wrapped call, with its
/// outcome, or the deadline.
pub enum RaceWinner {
    Call(Result<Vec<u8>, ProtoError>),
    Deadline,
}

/// A fixed per-call deadline, measured in the runtime's clock ticks.
pub struct Timeout {
    ticks: u64,
}

impl Timeout {
    /// The configured duration.
    pub closed spec fn ticks_spec(&self) -> u64 {
        self.ticks
    }

    /// Deadline middleware with a fixed duration of `ticks`.
    pub fn new(ticks: u64) -> (r: Timeout)
        ensures
            r.ticks_spec() == ticks,
    {
        Timeout { ticks }
    }

    /// The absolute deadline for a call starting at `now`, or `None` when
    /// it would not fit the clock.
    pub fn deadline_from(&self, now: u64) -> (r: Option<u64>)
        ensures
            now + self.ticks_spec() <= u64::MAX ==> (r matches Some(d) && d == now
                + self.ticks_spec()),
            now + self.ticks_spec() > u64::MAX ==> r is None,
    {
        if now <= u64::MAX - self.ticks {
            Some(now + self.ticks)
        } else {
            None
        }
    }

    /// Whether the deadline has passed at time `now`.
    pub fn has_expired(&self, now: u64, deadline: u64) -> (r: bool)
        ensures
            r == (now >= deadline),
    {
        now >= deadline
    }

    /// The caller's outcome once the race is decided: the call's own
    /// result if it finished first, a timeout error if the deadline won.
    pub fn resolve(&self, winner: RaceWinner) -> (r: Result<Vec<u8>, ProtoError>)
        ensures
            winner matches RaceWinner::Call(out) ==> r == out,
            winner is Deadline ==> (r matches Err(e) && e == ProtoError::TimedOut),
    {
        match winner {
            RaceWinner::Call(out) => out,
            RaceWinner::Deadline => Err(ProtoError::TimedOut),
        }
    }
}

} // verus!
