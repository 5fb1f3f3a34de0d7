//! Facts about single bits of machine words.

use vstd::prelude::*;

verus! {

/// Bit `b` of `w` is one.
pub open spec fn bit64(w: u64, b: u64) -> bool {
    (w >> b) & 1u64 == 1u64
}

/// Bit `b` of `w` is one.
pub open spec fn bit32(w: u32, b: u32) -> bool {
    (w >> b) & 1u32 == 1u32
}

/// Setting bit `b` changes that bit and no other.
pub proof fn lemma_set_bit64(w: u64, b: u64)
    requires
        b < 64,
    ensures
        forall|j: u64|
            j < 64 ==> (#[trigger] bit64(w | (1u64 << b), j) <==> (j == b || bit64(w, j))),
{
    assert forall|j: u64| j < 64 implies (#[trigger] bit64(w | (1u64 << b), j) <==> (j == b
        || bit64(w, j))) by {
        assert((((w | (1u64 << b)) >> j) & 1u64 == 1u64) <==> (j == b || (w >> j) & 1u64 == 1u64))
            by (bit_vector)
            requires
                j < 64,
                b < 64,
        ;
    }
}

/// Clearing bit `b` changes that bit and no other.
pub proof fn lemma_clear_bit64(w: u64, b: u64)
    requires
        b < 64,
    ensures
        forall|j: u64|
            j < 64 ==> (#[trigger] bit64(w & !(1u64 << b), j) <==> (j != b && bit64(w, j))),
{
    assert forall|j: u64| j < 64 implies (#[trigger] bit64(w & !(1u64 << b), j) <==> (j != b
        && bit64(w, j))) by {
        assert((((w & !(1u64 << b)) >> j) & 1u64 == 1u64) <==> (j != b && (w >> j) & 1u64 == 1u64))
            by (bit_vector)
            requires
                j < 64,
                b < 64,
        ;
    }
}

/// Masking with a single bit tests that bit.
pub proof fn lemma_test_bit64(w: u64, b: u64)
    requires
        b < 64,
    ensures
        (w & (1u64 << b) != 0) <==> bit64(w, b),
{
    assert((w & (1u64 << b) != 0) <==> ((w >> b) & 1u64 == 1u64)) by (bit_vector)
        requires
            b < 64,
    ;
}

/// Complementing a word flips each of its bits.
pub proof fn lemma_not_bit64(w: u64, b: u64)
    requires
        b < 64,
    ensures
        ((!w) >> b) & 1u64 == 1u64 <==> !bit64(w, b),
        ((!w) >> b) & 1u64 == 0u64 <==> bit64(w, b),
{
    assert((((!w) >> b) & 1u64 == 1u64 <==> !((w >> b) & 1u64 == 1u64)) && (((!w) >> b) & 1u64
        == 0u64 <==> (w >> b) & 1u64 == 1u64)) by (bit_vector)
        requires
            b < 64,
    ;
}

/// Every bit of the all-ones word is one.
pub proof fn lemma_ones_bit64(b: u64)
    requires
        b < 64,
    ensures
        bit64(u64::MAX, b),
{
    assert((0xffff_ffff_ffff_ffffu64 >> b) & 1u64 == 1u64) by (bit_vector)
        requires
            b < 64,
    ;
}

/// No bit of the zero word is one.
pub proof fn lemma_zero_bit64(b: u64)
    ensures
        !bit64(0, b),
{
    assert((0u64 >> b) & 1u64 == 0u64) by (bit_vector);
}

/// `!((1 << rem) - 1)` has exactly the bits from `rem` upwards.
pub proof fn lemma_high_mask64(rem: u64)
    requires
        rem < 64,
    ensures
        (1u64 << rem) >= 1,
        forall|j: u64|
            j < 64 ==> (#[trigger] bit64(!(((1u64 << rem) - 1) as u64), j) <==> j >= rem),
{
    assert((1u64 << rem) >= 1) by (bit_vector)
        requires
            rem < 64,
    ;
    let m: u64 = ((1u64 << rem) - 1) as u64;
    assert forall|j: u64| j < 64 implies (#[trigger] bit64(!m, j) <==> j >= rem) by {
        assert((((!m) >> j) & 1u64 == 1u64) <==> j >= rem) by (bit_vector)
            requires
                j < 64,
                rem < 64,
                m == (1u64 << rem) - 1,
        ;
    }
}

} // verus!
