//! The one fact the codecs need from the standard library: whether a byte
//! sequence is valid UTF-8.
//!
//! The predicate itself is left uninterpreted; the checker below is the only
//! place it is tied to executable code.

use vstd::prelude::*;

verus! {

/// True when `s` is a valid UTF-8 encoding.
pub uninterp spec fn is_utf8(s: Seq<u8>) -> bool;

/// Relies on `core::str::from_utf8`: it returns `Ok` exactly on valid UTF-8
/// input, and its result depends on the bytes alone.
#[verifier::external_body]
pub fn utf8_ok(bytes: &[u8]) -> (r: bool)
    ensures
        r == is_utf8(bytes@),
{
    match core::str::from_utf8(bytes) {
        Ok(_) => true,
        Err(_) => false,
    }
}

} // verus!
