//! Service middleware that validates requests and responses.
//!
//! The line protocol cannot escape the frame delimiter, so payloads must
//! not contain it. `Validate` checks a request before forwarding it — a
//! bad request is rejected without touching the wrapped service, so no
//! byte of it can reach a transport — and checks the response on the way
//! back, defending against an application producing malformed frames.

use vstd::prelude::*;
use crate::buffer;
use crate::error::ProtoError;
use crate::service::{NewService, Service};

verus! {

/// Validation middleware around a service or a client-facing call path.
pub struct Validate<T> {
    inner: T,
}

impl<T> Validate<T> {
    /// Wrap `inner` so requests and responses are validated.
    pub fn new(inner: T) -> (r: Validate<T>)
        ensures
            r.inner_spec() == inner,
    {
        Validate { inner }
    }

    /// The wrapped value.
    pub closed spec fn inner_spec(&self) -> T {
        self.inner
    }
}

impl<T: Service<Vec<u8>, Vec<u8>>> Service<Vec<u8>, Vec<u8>> for Validate<T> {
    /// A request holding the frame delimiter fails with "invalid input"
    /// and the wrapped service is left untouched; otherwise the request is
    /// forwarded, and a response holding the delimiter is replaced with
    /// the same error. A response that comes back `Ok` is delimiter-free,
    /// and so was the request that produced it.
    fn call(&mut self, req: Vec<u8>) -> (r: Result<Vec<u8>, ProtoError>)
        ensures
            !buffer::no_newline(req@) ==> ({
                &&& r matches Err(e) && e == ProtoError::InvalidInput
                &&& final(self).inner_spec() == old(self).inner_spec()
            }),
            r matches Ok(v) ==> buffer::no_newline(v@) && buffer::no_newline(req@),
    {
        if buffer::contains_newline(&req) {
            return Err(ProtoError::InvalidInput);
        }
        match self.inner.call(req) {
            Ok(resp) => {
                if buffer::contains_newline(&resp) {
                    Err(ProtoError::InvalidInput)
                } else {
                    Ok(resp)
                }
            },
            Err(e) => Err(e),
        }
    }
}

impl<T: NewService<Vec<u8>, Vec<u8>>> NewService<Vec<u8>, Vec<u8>> for Validate<T> {
    type Instance = Validate<T::Instance>;

    /// Every instance the wrapped factory creates is wrapped in turn, so a
    /// connection's whole service chain is validated.
    fn new_service(&self) -> Result<Validate<T::Instance>, ProtoError> {
        match self.inner.new_service() {
            Ok(inner) => Ok(Validate::new(inner)),
            Err(e) => Err(e),
        }
    }
}

} // verus!
