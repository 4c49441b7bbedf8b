use vstd::prelude::*;

verus! {

/// No byte of `s` is the terminator.
pub open spec fn nul_free(s: Seq<u8>) -> bool {
    forall|i: int| 0 <= i < s.len() ==> s[i] != 0u8
}

/// `s` followed by the terminator, as a native string.
pub open spec fn with_nul(s: Seq<u8>) -> Seq<u8> {
    s.push(0u8)
}

/// Whether `b` holds an embedded terminator.
pub fn has_nul(b: &[u8]) -> (r: bool)
    ensures
        r == !nul_free(b@),
{
    let mut i: usize = 0;
    while i < b.len()
        invariant
            i <= b@.len(),
            forall|k: int| 0 <= k < i ==> b@[k] != 0u8,
        decreases b@.len() - i,
    {
        if b[i] == 0u8 {
            return true;
        }
        i = i + 1;
    }
    false
}

/// A copy of `b` with the terminator appended.
pub(crate) fn to_native(b: &[u8]) -> (r: Vec<u8>)
    ensures
        r@ == with_nul(b@),
{
    let mut r: Vec<u8> = Vec::new();
    let mut i: usize = 0;
    while i < b.len()
        invariant
            i <= b@.len(),
            r@ == b@.subrange(0, i as int),
        decreases b@.len() - i,
    {
        r.push(b[i]);
        assert(r@ =~= b@.subrange(0, i + 1));
        i = i + 1;
    }
    r.push(0u8);
    assert(b@.subrange(0, i as int) =~= b@);
    r
}

/// A copy of `b`.
pub(crate) fn copy_bytes(b: &[u8]) -> (r: Vec<u8>)
    ensures
        r@ == b@,
{
    let mut r: Vec<u8> = Vec::new();
    let mut i: usize = 0;
    while i < b.len()
        invariant
            i <= b@.len(),
            r@ == b@.subrange(0, i as int),
        decreases b@.len() - i,
    {
        r.push(b[i]);
        assert(r@ =~= b@.subrange(0, i + 1));
        i = i + 1;
    }
    assert(b@.subrange(0, i as int) =~= b@);
    r
}

} // verus!
