//! Byte-vector helpers.
use vstd::prelude::*;

verus! {

/// Appends the bytes of `other` to `out`.
pub fn append_bytes(out: &mut Vec<u8>, other: &[u8])
    ensures
        final(out)@ == old(out)@ + other@,
{
    let ghost start = out@;
    let mut i: usize = 0;
    while i < other.len()
        invariant
            i <= other@.len(),
            out@ == start + other@.take(i as int),
        decreases other@.len() - i,
    {
        out.push(other[i]);
        assert(other@.take(i + 1) =~= other@.take(i as int).push(other@[i as int]));
        i = i + 1;
    }
    assert(other@.take(other@.len() as int) =~= other@);
}

/// A fresh vector holding the bytes of `s`.
pub fn copy_bytes(s: &[u8]) -> (r: Vec<u8>)
    ensures
        r@ == s@,
{
    let mut out: Vec<u8> = Vec::new();
    append_bytes(&mut out, s);
    assert(out@ =~= s@);
    out
}

} // verus!
