//! Byte-string helpers.
use vstd::prelude::*;

verus! {

/// The bytes `bytes[from..to]`.
pub fn copy_bytes(bytes: &[u8], from: usize, to: usize) -> (r: Vec<u8>)
    requires
        from <= to <= bytes@.len(),
    ensures
        r@ == bytes@.subrange(from as int, to as int),
{
    let mut out: Vec<u8> = Vec::new();
    let mut k: usize = from;
    while k < to
        invariant
            from <= k <= to <= bytes@.len(),
            out@ == bytes@.subrange(from as int, k as int),
        decreases to - k,
    {
        out.push(bytes[k]);
        assert(out@ =~= bytes@.subrange(from as int, k + 1));
        k = k + 1;
    }
    out
}

/// Appends `extra` to `buffer`.
pub fn append_bytes(buffer: &mut Vec<u8>, extra: &[u8])
    ensures
        final(buffer)@ == old(buffer)@ + extra@,
{
    let ghost start = buffer@;
    let mut i: usize = 0;
    while i < extra.len()
        invariant
            i <= extra@.len(),
            buffer@ == start + extra@.subrange(0, i as int),
        decreases extra.len() - i,
    {
        buffer.push(extra[i]);
        assert(extra@.subrange(0, i + 1) =~= extra@.subrange(0, i as int).push(extra@[i as int]));
        i = i + 1;
    }
    assert(extra@.subrange(0, extra@.len() as int) =~= extra@);
}

/// Whether two byte strings are equal.
pub fn same_bytes(a: &[u8], b: &[u8]) -> (r: bool)
    ensures
        r == (a@ == b@),
{
    if a.len() != b.len() {
        return false;
    }
    let mut i: usize = 0;
    while i < a.len()
        invariant
            a@.len() == b@.len(),
            i <= a@.len(),
            forall|k: int| 0 <= k < i ==> a@[k] == b@[k],
        decreases a.len() - i,
    {
        if a[i] != b[i] {
            return false;
        }
        i = i + 1;
    }
    assert(a@ =~= b@);
    true
}

} // verus!
