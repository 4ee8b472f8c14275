//! Conversions between a 32-bit word and its bits, least significant first.

use vstd::arithmetic::power2::{lemma2_to64, lemma_pow2_pos, lemma_pow2_unfold, pow2};
use vstd::arithmetic::div_mod::{lemma_mod_breakdown, lemma_small_mod};
use vstd::bits::{lemma_u32_pow2_no_overflow, lemma_u32_shl_is_mul, lemma_u32_shr_is_div};
use vstd::prelude::*;

verus! {

/// Bit `i` of `value`, as 0 or 1.
pub open spec fn bit_of(value: u32, i: int) -> u32 {
    (value >> (i as u32)) & 1u32
}

/// The 32 bits of `value`, least significant first.
pub open spec fn bits_of(value: u32) -> Seq<u32> {
    Seq::new(32, |i: int| bit_of(value, i))
}

/// Every entry of `bits` is 0 or 1.
pub open spec fn is_bit_seq(bits: Seq<u32>) -> bool {
    forall|i: int| 0 <= i < bits.len() ==> #[trigger] bits[i] <= 1
}

/// The number whose binary digits, least significant first, are `bits`.
pub open spec fn bits_value(bits: Seq<u32>) -> nat
    decreases bits.len(),
{
    if bits.len() == 0 {
        0
    } else {
        (bits_value(bits.drop_last()) + bits.last() * pow2((bits.len() - 1) as nat)) as nat
    }
}

/// Splits `value` into its 32 bits, least significant first.
pub fn u32_to_bitvec(value: u32) -> (bits: Vec<u32>)
    ensures
        bits@ == bits_of(value),
{
    let mut bits: Vec<u32> = Vec::new();
    let mut i: u32 = 0;
    while i < 32
        invariant
            i <= 32,
            bits@.len() == i,
            forall|k: int| 0 <= k < i ==> bits@[k] == bit_of(value, k),
        decreases 32 - i,
    {
        bits.push((value >> i) & 1);
        i += 1;
    }
    assert(bits@ =~= bits_of(value));
    bits
}

/// Setting a bit above every set bit of `value` adds its weight.
proof fn lemma_or_high_bit(value: u32, bit: u32, i: u32)
    by (bit_vector)
    requires
        i < 32,
        bit <= 1,
        value < (1u32 << i),
    ensures
        value | (bit << i) == value + (bit << i),
{
}

/// Assembles a word from its bits, least significant first; missing high
/// bits are zero.
pub fn bitvec_to_u32(bits: &[u32]) -> (value: u32)
    requires
        bits@.len() <= 32,
        is_bit_seq(bits@),
    ensures
        value as nat == bits_value(bits@),
{
    let mut value: u32 = 0;
    let mut i: usize = 0;
    proof {
        lemma_pow2_pos(0);
    }
    while i < bits.len()
        invariant
            i <= bits@.len() <= 32,
            is_bit_seq(bits@),
            value as nat == bits_value(bits@.subrange(0, i as int)),
            value < pow2(i as nat),
        decreases bits@.len() - i,
    {
        let bit = bits[i];
        let shift = i as u32;
        proof {
            lemma_u32_pow2_no_overflow(shift as nat);
            assert(bit <= 1);
            assert(bit * pow2(shift as nat) <= pow2(shift as nat)) by (nonlinear_arith)
                requires
                    bit <= 1,
            ;
            lemma_u32_shl_is_mul(1u32, shift);
            lemma_u32_shl_is_mul(bit, shift);
            lemma_or_high_bit(value, bit, shift);
            lemma_pow2_unfold((shift + 1) as nat);
            assert(bits@.subrange(0, i + 1).drop_last() =~= bits@.subrange(0, i as int));
        }
        value = value | (bit << shift);
        i += 1;
    }
    assert(bits@.subrange(0, bits@.len() as int) =~= bits@);
    value
}

/// The low bit of `x` is its parity.
proof fn lemma_low_bit_is_parity(x: u32)
    by (bit_vector)
    ensures
        x & 1 == x % 2,
{
}

/// The first `k` bits of `value` make up `value` modulo 2^k.
proof fn lemma_prefix_value(value: u32, k: nat)
    requires
        k <= 32,
    ensures
        bits_value(bits_of(value).subrange(0, k as int)) == value as nat % pow2(k),
    decreases k,
{
    if k == 0 {
        assert(bits_of(value).subrange(0, 0) =~= Seq::<u32>::empty());
        lemma2_to64();
    } else {
        let j = (k - 1) as nat;
        lemma_prefix_value(value, j);
        assert(bits_of(value).subrange(0, k as int).drop_last() =~= bits_of(value).subrange(
            0,
            j as int,
        ));
        lemma_pow2_pos(j);
        lemma_pow2_unfold(k);
        lemma_u32_shr_is_div(value, j as u32);
        lemma_low_bit_is_parity(value >> (j as u32));
        lemma_mod_breakdown(value as int, pow2(j) as int, 2);
        let p = pow2(j) as int;
        let bit = bits_of(value)[j as int];
        assert(bit == (value as int / p) % 2);
        assert(bits_value(bits_of(value).subrange(0, k as int)) == value as int % p + bit * p);
        assert(bit * p == p * ((value as int / p) % 2)) by (nonlinear_arith)
            requires
                bit == (value as int / p) % 2,
        ;
        assert(p * 2 == pow2(k));
    }
}

/// Splitting a word into its bits and assembling them again gives the word
/// back.
pub proof fn lemma_bitvec_round_trip(value: u32)
    ensures
        is_bit_seq(bits_of(value)),
        bits_value(bits_of(value)) == value,
{
    assert forall|i: int| 0 <= i < 32 implies #[trigger] bits_of(value)[i] <= 1 by {
        lemma_low_bit_is_parity(value >> (i as u32));
    }
    lemma_prefix_value(value, 32);
    assert(bits_of(value).subrange(0, 32) =~= bits_of(value));
    lemma2_to64();
    lemma_small_mod(value as nat, pow2(32));
}

} // verus!
