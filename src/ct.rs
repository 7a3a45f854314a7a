//! Equality of secrets in time that depends on their lengths only.
use vstd::prelude::*;

verus! {

proof fn lemma_or_xor_zero(acc: u32, x: u32, y: u32)
    ensures
        ((acc | (x ^ y)) == 0u32) == (acc == 0u32 && x == y),
{
    assert(((acc | (x ^ y)) == 0u32) == (acc == 0u32 && x == y)) by (bit_vector);
}

/// Whether `a` and `b` hold the same characters. Every character pair of
/// equal-length inputs is inspected, whatever the outcome, so the running
/// time does not reveal where the first difference lies.
pub fn ct_eq(a: &str, b: &str) -> (r: bool)
    ensures
        r == (a@ == b@),
{
    let n = a.unicode_len();
    let m = b.unicode_len();
    if n != m {
        return false;
    }
    let mut acc: u32 = 0;
    let mut i: usize = 0;
    assert(a@.subrange(0, 0) =~= b@.subrange(0, 0));
    while i < n
        invariant
            i <= n,
            n == a@.len(),
            n == b@.len(),
            (acc == 0) == (a@.subrange(0, i as int) == b@.subrange(0, i as int)),
        decreases n - i,
    {
        let ca = a.get_char(i);
        let cb = b.get_char(i);
        let x = ca as u32;
        let y = cb as u32;
        proof {
            lemma_or_xor_zero(acc, x, y);
            assert(a@.subrange(0, i + 1) == a@.subrange(0, i as int).push(ca));
            assert(b@.subrange(0, i + 1) == b@.subrange(0, i as int).push(cb));
            if a@.subrange(0, i as int) == b@.subrange(0, i as int) && ca == cb {
                assert(a@.subrange(0, i + 1) =~= b@.subrange(0, i + 1));
            }
            if a@.subrange(0, i + 1) == b@.subrange(0, i + 1) {
                assert(a@.subrange(0, i + 1)[i as int] == b@.subrange(0, i + 1)[i as int]);
                assert(a@.subrange(0, i as int) == a@.subrange(0, i + 1).drop_last());
                assert(b@.subrange(0, i as int) == b@.subrange(0, i + 1).drop_last());
            }
        }
        acc = acc | (x ^ y);
        i = i + 1;
    }
    assert(a@.subrange(0, n as int) == a@);
    assert(b@.subrange(0, n as int) == b@);
    acc == 0
}

} // verus!
