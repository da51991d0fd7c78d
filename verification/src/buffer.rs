//! Byte-buffer helpers shared by the codecs and the transport.
//!
//! Every wire format in this crate delimits frames with a `\n` byte, so the
//! central operations are: find the first delimiter, split a line off the
//! front of a buffer, and append bytes to the back.

use vstd::prelude::*;

verus! {

/// The frame delimiter byte (`\n`).
pub const NL: u8 = 10;

/// True when `s` holds no frame delimiter.
pub open spec fn no_newline(s: Seq<u8>) -> bool {
    forall|i: int| 0 <= i < s.len() ==> s[i] != NL
}

/// Index of the first delimiter at or after `from`, or `s.len()` when there
/// is none.
pub open spec fn find_newline_spec(s: Seq<u8>, from: int) -> int
    decreases s.len() - from,
{
    if from < 0 || from >= s.len() {
        s.len() as int
    } else if s[from] == NL {
        from
    } else {
        find_newline_spec(s, from + 1)
    }
}

pub proof fn lemma_find_newline_props(s: Seq<u8>, from: int)
    requires
        0 <= from <= s.len(),
    ensures
        from <= find_newline_spec(s, from) <= s.len(),
        find_newline_spec(s, from) < s.len() ==> s[find_newline_spec(s, from)] == NL,
        forall|i: int| from <= i < find_newline_spec(s, from) ==> s[i] != NL,
    decreases s.len() - from,
{
    if from < s.len() && s[from] != NL {
        lemma_find_newline_props(s, from + 1);
    }
}

pub proof fn lemma_find_newline_at(s: Seq<u8>, from: int, k: int)
    requires
        0 <= from <= k < s.len(),
        s[k] == NL,
        forall|i: int| from <= i < k ==> s[i] != NL,
    ensures
        find_newline_spec(s, from) == k,
    decreases k - from,
{
    if from < k {
        lemma_find_newline_at(s, from + 1, k);
    }
}

pub proof fn lemma_find_newline_none(s: Seq<u8>, from: int)
    requires
        0 <= from <= s.len(),
        forall|i: int| from <= i < s.len() ==> s[i] != NL,
    ensures
        find_newline_spec(s, from) == s.len(),
{
    lemma_find_newline_props(s, from);
}

/// Scan for the first delimiter at or after `from`; `buf.len()` means none.
pub fn find_newline(buf: &Vec<u8>, from: usize) -> (r: usize)
    requires
        from <= buf@.len(),
    ensures
        r == find_newline_spec(buf@, from as int),
{
    let mut i: usize = from;
    while i < buf.len()
        invariant
            from <= i <= buf@.len(),
            forall|j: int| from <= j < i ==> buf@[j] != NL,
        decreases buf@.len() - i,
    {
        if buf[i] == NL {
            proof {
                lemma_find_newline_at(buf@, from as int, i as int);
            }
            return i;
        }
        i = i + 1;
    }
    proof {
        lemma_find_newline_none(buf@, from as int);
    }
    buf.len()
}

/// True when `s` holds a frame delimiter somewhere.
pub fn contains_newline(s: &Vec<u8>) -> (r: bool)
    ensures
        r == !no_newline(s@),
{
    let n = find_newline(s, 0);
    proof {
        lemma_find_newline_props(s@, 0);
    }
    n < s.len()
}

/// Remove the line ending at the delimiter `buf[n]` from the front of `buf`
/// and return it (without the delimiter).
pub fn split_line(buf: &mut Vec<u8>, n: usize) -> (line: Vec<u8>)
    requires
        n < old(buf)@.len(),
    ensures
        line@ == old(buf)@.subrange(0, n as int),
        final(buf)@ == old(buf)@.subrange(n as int + 1, old(buf)@.len() as int),
{
    let mut tail = buf.split_off(n);
    let mut rest = tail.split_off(1);
    proof {
        assert(rest@ =~= old(buf)@.subrange(n as int + 1, old(buf)@.len() as int));
    }
    core::mem::swap(buf, &mut rest);
    rest
}

/// Remove the first `n` bytes of `buf`.
pub fn drop_prefix(buf: &mut Vec<u8>, n: usize)
    requires
        n <= old(buf)@.len(),
    ensures
        final(buf)@ == old(buf)@.subrange(n as int, old(buf)@.len() as int),
{
    let mut tail = buf.split_off(n);
    core::mem::swap(buf, &mut tail);
}

/// Append all of `bytes` to the back of `buf`.
pub fn push_all(buf: &mut Vec<u8>, bytes: &Vec<u8>)
    ensures
        final(buf)@ == old(buf)@ + bytes@,
{
    let mut i: usize = 0;
    while i < bytes.len()
        invariant
            i <= bytes@.len(),
            buf@ == old(buf)@ + bytes@.subrange(0, i as int),
        decreases bytes@.len() - i,
    {
        let ghost prev = buf@;
        buf.push(bytes[i]);
        proof {
            assert(buf@ =~= old(buf)@ + bytes@.subrange(0, i as int + 1));
        }
        i = i + 1;
    }
    proof {
        assert(bytes@.subrange(0, bytes@.len() as int) =~= bytes@);
        assert(buf@ =~= old(buf)@ + bytes@);
    }
}

/// Compare two byte vectors for equality of contents.
pub fn bytes_eq(a: &Vec<u8>, b: &Vec<u8>) -> (r: bool)
    ensures
        r == (a@ == b@),
{
    if a.len() != b.len() {
        return false;
    }
    let mut i: usize = 0;
    while i < a.len()
        invariant
            a@.len() == b@.len(),
            i <= a@.len(),
            forall|j: int| 0 <= j < i ==> a@[j] == b@[j],
        decreases a@.len() - i,
    {
        if a[i] != b[i] {
            return false;
        }
        i = i + 1;
    }
    proof {
        assert(a@ =~= b@);
    }
    true
}

/// Copy the range `[from, to)` of `buf` into a fresh vector.
pub fn copy_range(buf: &Vec<u8>, from: usize, to: usize) -> (r: Vec<u8>)
    requires
        from <= to <= buf@.len(),
    ensures
        r@ == buf@.subrange(from as int, to as int),
{
    let mut out: Vec<u8> = Vec::new();
    let mut i: usize = from;
    while i < to
        invariant
            from <= i <= to <= buf@.len(),
            out@ == buf@.subrange(from as int, i as int),
        decreases to - i,
    {
        out.push(buf[i]);
        proof {
            assert(out@ =~= buf@.subrange(from as int, i as int + 1));
        }
        i = i + 1;
    }
    out
}

} // verus!
