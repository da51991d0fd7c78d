//! An empty stream: it is exhausted from the start.

use vstd::prelude::*;
use core::marker::PhantomData;

verus! {

/// A poll's answer: a value is ready, or the caller should try again once
/// the source signals readiness.
pub enum Async<T> {
    Ready(T),
    NotReady,
}

/// A stream that never yields an item and never fails.
pub struct Empty<T, E> {
    marker: PhantomData<(T, E)>,
}

impl<T, E> Empty<T, E> {
    /// Create a new `Empty`.
    pub fn new() -> (r: Empty<T, E>)
    {
        Empty { marker: PhantomData }
    }

    /// Polling always reports the end of the stream, immediately.
    pub fn poll(&mut self) -> (r: Result<Async<Option<T>>, E>)
        ensures
            r matches Ok(a) && a matches Async::Ready(o) && o is None,
    {
        Ok(Async::Ready(None))
    }
}

} // verus!
