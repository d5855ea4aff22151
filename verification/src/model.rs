//! The mathematical model of the FNV hashes: the published per-width
//! constants, the per-byte update rules, and the left fold of a rule over a
//! byte sequence. Every accumulator contract is stated in terms of these.

use vstd::prelude::*;

verus! {

/// The 32-bit FNV prime.
pub const FNV_PRIME_32: u32 = 0x0100_0193;

/// The 64-bit FNV prime.
pub const FNV_PRIME_64: u64 = 0x0000_0100_0000_01b3;

/// The 128-bit FNV prime.
pub const FNV_PRIME_128: u128 = 0x0000_0000_0100_0000_0000_0000_0000_013b;

/// The 32-bit FNV offset basis, the initial value of FNV-1 and FNV-1a.
pub const FNV_OFFSET_BASIS_32: u32 = 0x811c_9dc5;

/// The 64-bit FNV offset basis.
pub const FNV_OFFSET_BASIS_64: u64 = 0xcbf2_9ce4_8422_2325;

/// The 128-bit FNV offset basis.
pub const FNV_OFFSET_BASIS_128: u128 = 0x6c62_272e_07bb_0142_62b8_2175_6295_c58d;

/// One FNV-0/FNV-1 step at 32 bits: multiply by the prime (wrapping), then
/// fold the byte in with exclusive or.
pub open spec fn step_mul_xor_32(h: u32, b: u8) -> u32 {
    h.wrapping_mul(FNV_PRIME_32) ^ (b as u32)
}

/// One FNV-1a step at 32 bits: fold the byte in with exclusive or, then
/// multiply by the prime (wrapping).
pub open spec fn step_xor_mul_32(h: u32, b: u8) -> u32 {
    (h ^ (b as u32)).wrapping_mul(FNV_PRIME_32)
}

/// One FNV-0/FNV-1 step at 64 bits.
pub open spec fn step_mul_xor_64(h: u64, b: u8) -> u64 {
    h.wrapping_mul(FNV_PRIME_64) ^ (b as u64)
}

/// One FNV-1a step at 64 bits.
pub open spec fn step_xor_mul_64(h: u64, b: u8) -> u64 {
    (h ^ (b as u64)).wrapping_mul(FNV_PRIME_64)
}

/// One FNV-0/FNV-1 step at 128 bits.
pub open spec fn step_mul_xor_128(h: u128, b: u8) -> u128 {
    h.wrapping_mul(FNV_PRIME_128) ^ (b as u128)
}

/// One FNV-1a step at 128 bits.
pub open spec fn step_xor_mul_128(h: u128, b: u8) -> u128 {
    (h ^ (b as u128)).wrapping_mul(FNV_PRIME_128)
}

/// The FNV-0/FNV-1 update rule folded over a byte sequence, starting from
/// accumulator value `h`, one step per byte in order.
pub open spec fn fold_mul_xor_32(h: u32, s: Seq<u8>) -> u32
    decreases s.len(),
{
    if s.len() == 0 {
        h
    } else {
        step_mul_xor_32(fold_mul_xor_32(h, s.drop_last()), s.last())
    }
}

/// The FNV-1a update rule folded over a byte sequence.
pub open spec fn fold_xor_mul_32(h: u32, s: Seq<u8>) -> u32
    decreases s.len(),
{
    if s.len() == 0 {
        h
    } else {
        step_xor_mul_32(fold_xor_mul_32(h, s.drop_last()), s.last())
    }
}

/// The FNV-0/FNV-1 update rule folded over a byte sequence, at 64 bits.
pub open spec fn fold_mul_xor_64(h: u64, s: Seq<u8>) -> u64
    decreases s.len(),
{
    if s.len() == 0 {
        h
    } else {
        step_mul_xor_64(fold_mul_xor_64(h, s.drop_last()), s.last())
    }
}

/// The FNV-1a update rule folded over a byte sequence, at 64 bits.
pub open spec fn fold_xor_mul_64(h: u64, s: Seq<u8>) -> u64
    decreases s.len(),
{
    if s.len() == 0 {
        h
    } else {
        step_xor_mul_64(fold_xor_mul_64(h, s.drop_last()), s.last())
    }
}

/// The FNV-0/FNV-1 update rule folded over a byte sequence, at 128 bits.
pub open spec fn fold_mul_xor_128(h: u128, s: Seq<u8>) -> u128
    decreases s.len(),
{
    if s.len() == 0 {
        h
    } else {
        step_mul_xor_128(fold_mul_xor_128(h, s.drop_last()), s.last())
    }
}

/// The FNV-1a update rule folded over a byte sequence, at 128 bits.
pub open spec fn fold_xor_mul_128(h: u128, s: Seq<u8>) -> u128
    decreases s.len(),
{
    if s.len() == 0 {
        h
    } else {
        step_xor_mul_128(fold_xor_mul_128(h, s.drop_last()), s.last())
    }
}

} // verus!
