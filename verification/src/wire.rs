//! Numbers as little endian bytes.

use vstd::arithmetic::power::{lemma_pow0, pow};
use vstd::prelude::*;

verus! {

/// The low `count` bytes of a number, the lowest one first.
pub open spec fn le_bytes(n: nat, count: nat) -> Seq<u8>
    decreases count,
{
    if count == 0 {
        Seq::empty()
    } else {
        seq![(n % 256) as u8] + le_bytes(n / 256, (count - 1) as nat)
    }
}

/// The number whose bytes are given, the lowest one first.
pub open spec fn le_value(bytes: Seq<u8>) -> nat
    decreases bytes.len(),
{
    if bytes.len() == 0 {
        0
    } else {
        bytes[0] as nat + 256 * le_value(bytes.drop_first())
    }
}

pub proof fn lemma_le_bytes_len(n: nat, count: nat)
    ensures
        le_bytes(n, count).len() == count,
    decreases count,
{
    if count > 0 {
        lemma_le_bytes_len(n / 256, (count - 1) as nat);
    }
}

/// A number that fits in the bytes is read back from them.
pub proof fn lemma_le_value_of_bytes(n: nat, count: nat)
    requires
        n < pow(256, count),
    ensures
        le_value(le_bytes(n, count)) == n,
    decreases count,
{
    if count == 0 {
        lemma_pow0(256);
    } else {
        reveal(pow);
        let rest = (count - 1) as nat;
        assert(pow(256, count) == 256 * pow(256, rest));
        assert(n / 256 < pow(256, rest)) by (nonlinear_arith)
            requires
                n < 256 * pow(256, rest),
        ;
        lemma_le_value_of_bytes(n / 256, rest);
        assert(le_bytes(n, count).drop_first() =~= le_bytes(n / 256, rest));
    }
}

/// The bytes of the number that they stand for are the bytes themselves.
pub proof fn lemma_le_bytes_of_value(bytes: Seq<u8>)
    ensures
        le_bytes(le_value(bytes), bytes.len()) == bytes,
    decreases bytes.len(),
{
    if bytes.len() > 0 {
        let rest = bytes.drop_first();
        lemma_le_bytes_of_value(rest);
        assert(le_value(bytes) / 256 == le_value(rest));
        assert(le_value(bytes) % 256 == bytes[0]);
        assert(seq![bytes[0]] + rest =~= bytes);
    } else {
        assert(le_bytes(0, 0) =~= bytes);
    }
}

pub proof fn lemma_le_value_bound(bytes: Seq<u8>)
    ensures
        le_value(bytes) < pow(256, bytes.len()),
    decreases bytes.len(),
{
    if bytes.len() == 0 {
        lemma_pow0(256);
    } else {
        reveal(pow);
        let rest = bytes.drop_first();
        lemma_le_value_bound(rest);
        assert(pow(256, bytes.len()) == 256 * pow(256, rest.len()));
    }
}

pub proof fn lemma_pow256()
    ensures
        pow(256, 2) == 0x1_0000,
        pow(256, 8) == 0x1_0000_0000_0000_0000,
{
    reveal(pow);
    reveal_with_fuel(pow, 10);
}

/// The byte with position `k` counts 256 to the power of `k`: the lowest byte comes first.
pub proof fn law_byte_has_its_weight(n: nat, count: nat, k: nat)
    requires
        k < count,
    ensures
        le_bytes(n, count).len() == count,
        le_bytes(n, count)[k as int] == (n as int / pow(256, k)) % 256,
    decreases k,
{
    lemma_le_bytes_len(n, count);
    lemma_pow0(256);
    let rest = le_bytes(n / 256, (count - 1) as nat);
    lemma_le_bytes_len(n / 256, (count - 1) as nat);
    if k == 0 {
        assert(le_bytes(n, count)[0] == n % 256);
        assert(n as int / 1 == n);
    } else {
        let below = (k - 1) as nat;
        law_byte_has_its_weight(n / 256, (count - 1) as nat, below);
        assert(le_bytes(n, count)[k as int] == rest[k - 1]);
        reveal(pow);
        assert(pow(256, k) == 256 * pow(256, below));
        vstd::arithmetic::power::lemma_pow_positive(256, below);
        vstd::arithmetic::div_mod::lemma_div_denominator(n as int, 256, pow(256, below));
    }
}

/// Appends the low `count` bytes of a number.
pub fn put_le(out: &mut Vec<u8>, n: u64, count: usize)
    ensures
        final(out)@ == old(out)@ + le_bytes(n as nat, count as nat),
{
    let mut rest: u64 = n;
    let mut i: usize = 0;
    while i < count
        invariant
            i <= count,
            out@ + le_bytes(rest as nat, (count - i) as nat) == old(out)@ + le_bytes(
                n as nat,
                count as nat,
            ),
        decreases count - i,
    {
        let ghost before = out@;
        let ghost n0 = rest as nat;
        out.push((rest % 256) as u8);
        rest = rest / 256;
        i = i + 1;
        assert(out@ + le_bytes(rest as nat, (count - i) as nat) =~= before + le_bytes(
            n0,
            (count - i + 1) as nat,
        ));
    }
    assert(out@ + le_bytes(rest as nat, 0) =~= out@);
}

/// Reads the number that the bytes from `from` to `to` stand for.
pub fn get_le(bytes: &[u8], from: usize, to: usize) -> (n: u64)
    requires
        from <= to <= bytes@.len(),
        to - from <= 8,
    ensures
        n == le_value(bytes@.subrange(from as int, to as int)),
    decreases to - from,
{
    if from == to {
        assert(bytes@.subrange(from as int, to as int) =~= Seq::<u8>::empty());
        return 0;
    }
    let high: u64 = get_le(bytes, from + 1, to);
    proof {
        let all = bytes@.subrange(from as int, to as int);
        let rest = bytes@.subrange(from + 1, to as int);
        assert(all.drop_first() =~= rest);
        lemma_le_value_bound(all);
        lemma_pow256();
        if all.len() < 8 {
            vstd::arithmetic::power::lemma_pow_increases(256, all.len(), 8);
        }
    }
    bytes[from] as u64 + 256 * high
}

} // verus!
