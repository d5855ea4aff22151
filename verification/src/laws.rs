//! Properties of the FNV folds that hold of every input: determinism,
//! streaming equivalence, behaviour on the empty sequence, sensitivity to the
//! order of the bytes, and the difference between FNV-1 and FNV-1a.

use crate::model::fold_mul_xor_128;
use crate::model::fold_mul_xor_32;
use crate::model::fold_mul_xor_64;
use crate::model::fold_xor_mul_128;
use crate::model::fold_xor_mul_32;
use crate::model::fold_xor_mul_64;
use crate::model::step_mul_xor_32;
use crate::model::step_xor_mul_32;
use crate::model::FNV_OFFSET_BASIS_32;
use crate::model::FNV_PRIME_32;
use vstd::prelude::*;

verus! {

/// Determinism: the digest is a function of the starting value and the bytes
/// alone, so two identically seeded accumulators absorbing the same bytes
/// agree, under either update rule.
pub proof fn lemma_deterministic_32(h1: u32, h2: u32, s1: Seq<u8>, s2: Seq<u8>)
    requires
        h1 == h2,
        s1 == s2,
    ensures
        fold_mul_xor_32(h1, s1) == fold_mul_xor_32(h2, s2),
        fold_xor_mul_32(h1, s1) == fold_xor_mul_32(h2, s2),
{
}

/// Determinism of the 64-bit folds.
pub proof fn lemma_deterministic_64(h1: u64, h2: u64, s1: Seq<u8>, s2: Seq<u8>)
    requires
        h1 == h2,
        s1 == s2,
    ensures
        fold_mul_xor_64(h1, s1) == fold_mul_xor_64(h2, s2),
        fold_xor_mul_64(h1, s1) == fold_xor_mul_64(h2, s2),
{
}

/// Determinism of the 128-bit folds.
pub proof fn lemma_deterministic_128(h1: u128, h2: u128, s1: Seq<u8>, s2: Seq<u8>)
    requires
        h1 == h2,
        s1 == s2,
    ensures
        fold_mul_xor_128(h1, s1) == fold_mul_xor_128(h2, s2),
        fold_xor_mul_128(h1, s1) == fold_xor_mul_128(h2, s2),
{
}

/// Streaming equivalence: absorbing `s1` and then `s2` gives the same digest
/// as absorbing the concatenation `s1 + s2` in one call, under either update
/// rule.
pub proof fn lemma_streaming_32(h: u32, s1: Seq<u8>, s2: Seq<u8>)
    ensures
        fold_mul_xor_32(h, s1 + s2) == fold_mul_xor_32(fold_mul_xor_32(h, s1), s2),
        fold_xor_mul_32(h, s1 + s2) == fold_xor_mul_32(fold_xor_mul_32(h, s1), s2),
    decreases s2.len(),
{
    if s2.len() == 0 {
        assert(s1 + s2 =~= s1);
    } else {
        lemma_streaming_32(h, s1, s2.drop_last());
        assert((s1 + s2).drop_last() =~= s1 + s2.drop_last());
        assert((s1 + s2).last() == s2.last());
    }
}

/// Streaming equivalence of the 64-bit folds.
pub proof fn lemma_streaming_64(h: u64, s1: Seq<u8>, s2: Seq<u8>)
    ensures
        fold_mul_xor_64(h, s1 + s2) == fold_mul_xor_64(fold_mul_xor_64(h, s1), s2),
        fold_xor_mul_64(h, s1 + s2) == fold_xor_mul_64(fold_xor_mul_64(h, s1), s2),
    decreases s2.len(),
{
    if s2.len() == 0 {
        assert(s1 + s2 =~= s1);
    } else {
        lemma_streaming_64(h, s1, s2.drop_last());
        assert((s1 + s2).drop_last() =~= s1 + s2.drop_last());
        assert((s1 + s2).last() == s2.last());
    }
}

/// Streaming equivalence of the 128-bit folds.
pub proof fn lemma_streaming_128(h: u128, s1: Seq<u8>, s2: Seq<u8>)
    ensures
        fold_mul_xor_128(h, s1 + s2) == fold_mul_xor_128(fold_mul_xor_128(h, s1), s2),
        fold_xor_mul_128(h, s1 + s2) == fold_xor_mul_128(fold_xor_mul_128(h, s1), s2),
    decreases s2.len(),
{
    if s2.len() == 0 {
        assert(s1 + s2 =~= s1);
    } else {
        lemma_streaming_128(h, s1, s2.drop_last());
        assert((s1 + s2).drop_last() =~= s1 + s2.drop_last());
        assert((s1 + s2).last() == s2.last());
    }
}

/// Empty input: absorbing no bytes leaves the digest at the starting value,
/// under either update rule.
pub proof fn lemma_empty_32(h: u32)
    ensures
        fold_mul_xor_32(h, Seq::<u8>::empty()) == h,
        fold_xor_mul_32(h, Seq::<u8>::empty()) == h,
{
}

/// Empty input at 64 bits.
pub proof fn lemma_empty_64(h: u64)
    ensures
        fold_mul_xor_64(h, Seq::<u8>::empty()) == h,
        fold_xor_mul_64(h, Seq::<u8>::empty()) == h,
{
}

/// Empty input at 128 bits.
pub proof fn lemma_empty_128(h: u128)
    ensures
        fold_mul_xor_128(h, Seq::<u8>::empty()) == h,
        fold_xor_mul_128(h, Seq::<u8>::empty()) == h,
{
}

/// Order sensitivity: the hash is not permutation-invariant. Reversing the
/// two-byte input `[0x01, 0x02]` — a permutation of it — changes the FNV-1a
/// digest taken from the 32-bit offset basis.
pub proof fn lemma_order_sensitive()
    ensures
        seq![0x02u8, 0x01u8] == seq![0x01u8, 0x02u8].reverse(),
        fold_xor_mul_32(FNV_OFFSET_BASIS_32, seq![0x01u8, 0x02u8]) != fold_xor_mul_32(
            FNV_OFFSET_BASIS_32,
            seq![0x02u8, 0x01u8],
        ),
{
    reveal_with_fuel(fold_xor_mul_32, 3);
    let s = seq![0x01u8, 0x02u8];
    let p = seq![0x02u8, 0x01u8];
    assert(p =~= s.reverse());
    assert(s.drop_last() =~= seq![0x01u8]);
    assert(p.drop_last() =~= seq![0x02u8]);
    assert(seq![0x01u8].drop_last() =~= Seq::<u8>::empty());
    assert(seq![0x02u8].drop_last() =~= Seq::<u8>::empty());
    assert(fold_xor_mul_32(FNV_OFFSET_BASIS_32, seq![0x01u8]) == step_xor_mul_32(
        FNV_OFFSET_BASIS_32,
        0x01u8,
    ));
    assert(fold_xor_mul_32(FNV_OFFSET_BASIS_32, seq![0x02u8]) == step_xor_mul_32(
        FNV_OFFSET_BASIS_32,
        0x02u8,
    ));
    assert(fold_xor_mul_32(FNV_OFFSET_BASIS_32, s) == step_xor_mul_32(
        step_xor_mul_32(FNV_OFFSET_BASIS_32, 0x01u8),
        0x02u8,
    ));
    assert(fold_xor_mul_32(FNV_OFFSET_BASIS_32, p) == step_xor_mul_32(
        step_xor_mul_32(FNV_OFFSET_BASIS_32, 0x02u8),
        0x01u8,
    ));
    assert(0x811c_9dc5u32 ^ 0x01u32 == 0x811c_9dc4u32) by (bit_vector);
    assert(0x811c_9dc4u32.wrapping_mul(FNV_PRIME_32) == 0x040c_5b8cu32);
    assert(0x040c_5b8cu32 ^ 0x02u32 == 0x040c_5b8eu32) by (bit_vector);
    assert(0x040c_5b8eu32.wrapping_mul(FNV_PRIME_32) == 0xed74_208au32);
    assert(0x811c_9dc5u32 ^ 0x02u32 == 0x811c_9dc7u32) by (bit_vector);
    assert(0x811c_9dc7u32.wrapping_mul(FNV_PRIME_32) == 0x070c_6045u32);
    assert(0x070c_6045u32 ^ 0x01u32 == 0x070c_6044u32) by (bit_vector);
    assert(0x070c_6044u32.wrapping_mul(FNV_PRIME_32) == 0x5c7b_8b0cu32);
}

/// Variant distinctness: on the single byte `0x61` at 32 bits, FNV-1
/// (multiply, then exclusive or) and FNV-1a (exclusive or, then multiply)
/// give different digests from the same offset basis.
pub proof fn lemma_variant_distinct()
    ensures
        fold_mul_xor_32(FNV_OFFSET_BASIS_32, seq![0x61u8]) != fold_xor_mul_32(
            FNV_OFFSET_BASIS_32,
            seq![0x61u8],
        ),
{
    reveal_with_fuel(fold_mul_xor_32, 2);
    reveal_with_fuel(fold_xor_mul_32, 2);
    let s = seq![0x61u8];
    assert(s.drop_last() =~= Seq::<u8>::empty());
    assert(fold_mul_xor_32(FNV_OFFSET_BASIS_32, s) == step_mul_xor_32(
        FNV_OFFSET_BASIS_32,
        0x61u8,
    ));
    assert(fold_xor_mul_32(FNV_OFFSET_BASIS_32, s) == step_xor_mul_32(
        FNV_OFFSET_BASIS_32,
        0x61u8,
    ));
    assert(0x811c_9dc5u32.wrapping_mul(FNV_PRIME_32) == 0x050c_5d1fu32);
    assert(0x050c_5d1fu32 ^ 0x61u32 == 0x050c_5d7eu32) by (bit_vector);
    assert(0x811c_9dc5u32 ^ 0x61u32 == 0x811c_9da4u32) by (bit_vector);
    assert(0x811c_9da4u32.wrapping_mul(FNV_PRIME_32) == 0xe40c_292cu32);
}

} // verus!
