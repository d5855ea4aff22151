//! The hash accumulators: `Fnv0`, `Fnv1` and `Fnv1a`, one per FNV variant,
//! each instantiated at the 32-, 64- and 128-bit widths, and the `FnvHasher`
//! trait through which all of them absorb bytes and yield their digest.

use crate::model::fold_mul_xor_128;
use crate::model::fold_mul_xor_32;
use crate::model::fold_mul_xor_64;
use crate::model::fold_xor_mul_128;
use crate::model::fold_xor_mul_32;
use crate::model::fold_xor_mul_64;
use crate::model::FNV_OFFSET_BASIS_128;
use crate::model::FNV_OFFSET_BASIS_32;
use crate::model::FNV_OFFSET_BASIS_64;
use crate::model::FNV_PRIME_128;
use crate::model::FNV_PRIME_32;
use crate::model::FNV_PRIME_64;
use vstd::prelude::*;

verus! {

/// A trait for all Fowler-Noll-Vo hash implementations.
///
/// This matches the `std::hash::Hasher` definition but for multiple hash
/// types.
pub trait FnvHasher {
    /// The type of the hash.
    type Hash;

    /// The digest held right now: the fold of the variant's update rule over
    /// every byte absorbed so far, starting from the construction value.
    spec fn digest_spec(&self) -> Self::Hash;

    /// The digest held after absorbing `bytes` on top of the current state.
    spec fn absorbed_spec(&self, bytes: Seq<u8>) -> Self::Hash;

    /// Completes a round of hashing, producing the output hash generated.
    fn finish(&self) -> (r: Self::Hash)
        ensures
            r == self.digest_spec(),
    ;

    /// Writes some data into this Hasher.
    fn write(&mut self, bytes: &[u8])
        ensures
            final(self).digest_spec() == old(self).absorbed_spec(bytes@),
    ;
}

/// The FNV-0 hash.
///
/// This is deprecated except for computing the FNV offset basis for FNV-1 and
/// FNV-1a hashes.
#[derive(Debug)]
pub struct Fnv0<T> {
    hash: T,
}

/// The FNV-1 hash.
#[derive(Debug)]
pub struct Fnv1<T> {
    hash: T,
}

/// The FNV-1a hash.
#[derive(Debug)]
pub struct Fnv1a<T> {
    hash: T,
}

impl<T> Fnv0<T> {
    /// The accumulator value this hasher holds.
    pub closed spec fn spec_hash(&self) -> T {
        self.hash
    }

    /// Creates a new `Fnv0<T>` with the specified key.
    pub fn with_key(key: T) -> (r: Self)
        ensures
            r.spec_hash() == key,
    {
        Fnv0 { hash: key }
    }
}

impl<T> Fnv1<T> {
    /// The accumulator value this hasher holds.
    pub closed spec fn spec_hash(&self) -> T {
        self.hash
    }

    /// Creates a new `Fnv1<T>` with the specified key.
    pub fn with_key(key: T) -> (r: Self)
        ensures
            r.spec_hash() == key,
    {
        Fnv1 { hash: key }
    }
}

impl<T> Fnv1a<T> {
    /// The accumulator value this hasher holds.
    pub closed spec fn spec_hash(&self) -> T {
        self.hash
    }

    /// Creates a new `Fnv1a<T>` with the specified key.
    pub fn with_key(key: T) -> (r: Self)
        ensures
            r.spec_hash() == key,
    {
        Fnv1a { hash: key }
    }
}

impl Default for Fnv0<u32> {
    /// An FNV-0 accumulator starts from zero.
    fn default() -> (r: Self)
        ensures
            r.spec_hash() == 0u32,
    {
        Fnv0 { hash: 0u32 }
    }
}

impl Fnv0<u32> {
    /// Creates a new `Fnv0<u32>`, starting from zero as FNV-0 does.
    pub fn new() -> (r: Self)
        ensures
            r.spec_hash() == 0u32,
    {
        Self::default()
    }
}

impl FnvHasher for Fnv0<u32> {
    type Hash = u32;

    open spec fn digest_spec(&self) -> u32 {
        self.spec_hash()
    }

    open spec fn absorbed_spec(&self, bytes: Seq<u8>) -> u32 {
        fold_mul_xor_32(self.spec_hash(), bytes)
    }

    fn finish(&self) -> (r: u32) {
        self.hash
    }

    fn write(&mut self, bytes: &[u8]) {
        let ghost h0: u32 = self.spec_hash();
        let mut hash: u32 = self.hash;
        let mut i: usize = 0;
        while i < bytes.len()
            invariant
                i <= bytes@.len(),
                hash == fold_mul_xor_32(h0, bytes@.take(i as int)),
            decreases bytes@.len() - i,
        {
            hash = hash.wrapping_mul(FNV_PRIME_32);
            hash = hash ^ (bytes[i] as u32);
            proof {
                assert(bytes@.take(i + 1).drop_last() =~= bytes@.take(i as int));
            }
            i = i + 1;
        }
        proof {
            assert(bytes@.take(bytes@.len() as int) =~= bytes@);
        }
        self.hash = hash;
    }
}

impl Default for Fnv0<u64> {
    /// An FNV-0 accumulator starts from zero.
    fn default() -> (r: Self)
        ensures
            r.spec_hash() == 0u64,
    {
        Fnv0 { hash: 0u64 }
    }
}

impl Fnv0<u64> {
    /// Creates a new `Fnv0<u64>`, starting from zero as FNV-0 does.
    pub fn new() -> (r: Self)
        ensures
            r.spec_hash() == 0u64,
    {
        Self::default()
    }
}

impl FnvHasher for Fnv0<u64> {
    type Hash = u64;

    open spec fn digest_spec(&self) -> u64 {
        self.spec_hash()
    }

    open spec fn absorbed_spec(&self, bytes: Seq<u8>) -> u64 {
        fold_mul_xor_64(self.spec_hash(), bytes)
    }

    fn finish(&self) -> (r: u64) {
        self.hash
    }

    fn write(&mut self, bytes: &[u8]) {
        let ghost h0: u64 = self.spec_hash();
        let mut hash: u64 = self.hash;
        let mut i: usize = 0;
        while i < bytes.len()
            invariant
                i <= bytes@.len(),
                hash == fold_mul_xor_64(h0, bytes@.take(i as int)),
            decreases bytes@.len() - i,
        {
            hash = hash.wrapping_mul(FNV_PRIME_64);
            hash = hash ^ (bytes[i] as u64);
            proof {
                assert(bytes@.take(i + 1).drop_last() =~= bytes@.take(i as int));
            }
            i = i + 1;
        }
        proof {
            assert(bytes@.take(bytes@.len() as int) =~= bytes@);
        }
        self.hash = hash;
    }
}

impl Default for Fnv0<u128> {
    /// An FNV-0 accumulator starts from zero.
    fn default() -> (r: Self)
        ensures
            r.spec_hash() == 0u128,
    {
        Fnv0 { hash: 0u128 }
    }
}

impl Fnv0<u128> {
    /// Creates a new `Fnv0<u128>`, starting from zero as FNV-0 does.
    pub fn new() -> (r: Self)
        ensures
            r.spec_hash() == 0u128,
    {
        Self::default()
    }
}

impl FnvHasher for Fnv0<u128> {
    type Hash = u128;

    open spec fn digest_spec(&self) -> u128 {
        self.spec_hash()
    }

    open spec fn absorbed_spec(&self, bytes: Seq<u8>) -> u128 {
        fold_mul_xor_128(self.spec_hash(), bytes)
    }

    fn finish(&self) -> (r: u128) {
        self.hash
    }

    fn write(&mut self, bytes: &[u8]) {
        let ghost h0: u128 = self.spec_hash();
        let mut hash: u128 = self.hash;
        let mut i: usize = 0;
        while i < bytes.len()
            invariant
                i <= bytes@.len(),
                hash == fold_mul_xor_128(h0, bytes@.take(i as int)),
            decreases bytes@.len() - i,
        {
            hash = hash.wrapping_mul(FNV_PRIME_128);
            hash = hash ^ (bytes[i] as u128);
            proof {
                assert(bytes@.take(i + 1).drop_last() =~= bytes@.take(i as int));
            }
            i = i + 1;
        }
        proof {
            assert(bytes@.take(bytes@.len() as int) =~= bytes@);
        }
        self.hash = hash;
    }
}

impl core::hash::Hasher for Fnv0<u64> {
    /// Delegates to `FnvHasher::finish`, so that this hasher can serve a
    /// standard hash table.
    fn finish(&self) -> u64 {
        FnvHasher::finish(self)
    }

    /// Delegates to `FnvHasher::write`: absorbing through the standard
    /// interface updates the accumulator exactly as `FnvHasher::write` does.
    fn write(&mut self, bytes: &[u8])
        ensures
            final(self).digest_spec() == old(self).absorbed_spec(bytes@),
    {
        FnvHasher::write(self, bytes);
    }
}

impl Default for Fnv1<u32> {
    /// An FNV-1 accumulator starts from the offset basis of its width.
    fn default() -> (r: Self)
        ensures
            r.spec_hash() == FNV_OFFSET_BASIS_32,
    {
        Fnv1 { hash: FNV_OFFSET_BASIS_32 }
    }
}

impl Fnv1<u32> {
    /// Creates a new `Fnv1<u32>`, starting from the 32-bit offset basis.
    pub fn new() -> (r: Self)
        ensures
            r.spec_hash() == FNV_OFFSET_BASIS_32,
    {
        Self::default()
    }
}

impl FnvHasher for Fnv1<u32> {
    type Hash = u32;

    open spec fn digest_spec(&self) -> u32 {
        self.spec_hash()
    }

    open spec fn absorbed_spec(&self, bytes: Seq<u8>) -> u32 {
        fold_mul_xor_32(self.spec_hash(), bytes)
    }

    fn finish(&self) -> (r: u32) {
        self.hash
    }

    fn write(&mut self, bytes: &[u8]) {
        let ghost h0: u32 = self.spec_hash();
        let mut hash: u32 = self.hash;
        let mut i: usize = 0;
        while i < bytes.len()
            invariant
                i <= bytes@.len(),
                hash == fold_mul_xor_32(h0, bytes@.take(i as int)),
            decreases bytes@.len() - i,
        {
            hash = hash.wrapping_mul(FNV_PRIME_32);
            hash = hash ^ (bytes[i] as u32);
            proof {
                assert(bytes@.take(i + 1).drop_last() =~= bytes@.take(i as int));
            }
            i = i + 1;
        }
        proof {
            assert(bytes@.take(bytes@.len() as int) =~= bytes@);
        }
        self.hash = hash;
    }
}

impl Default for Fnv1<u64> {
    /// An FNV-1 accumulator starts from the offset basis of its width.
    fn default() -> (r: Self)
        ensures
            r.spec_hash() == FNV_OFFSET_BASIS_64,
    {
        Fnv1 { hash: FNV_OFFSET_BASIS_64 }
    }
}

impl Fnv1<u64> {
    /// Creates a new `Fnv1<u64>`, starting from the 64-bit offset basis.
    pub fn new() -> (r: Self)
        ensures
            r.spec_hash() == FNV_OFFSET_BASIS_64,
    {
        Self::default()
    }
}

impl FnvHasher for Fnv1<u64> {
    type Hash = u64;

    open spec fn digest_spec(&self) -> u64 {
        self.spec_hash()
    }

    open spec fn absorbed_spec(&self, bytes: Seq<u8>) -> u64 {
        fold_mul_xor_64(self.spec_hash(), bytes)
    }

    fn finish(&self) -> (r: u64) {
        self.hash
    }

    fn write(&mut self, bytes: &[u8]) {
        let ghost h0: u64 = self.spec_hash();
        let mut hash: u64 = self.hash;
        let mut i: usize = 0;
        while i < bytes.len()
            invariant
                i <= bytes@.len(),
                hash == fold_mul_xor_64(h0, bytes@.take(i as int)),
            decreases bytes@.len() - i,
        {
            hash = hash.wrapping_mul(FNV_PRIME_64);
            hash = hash ^ (bytes[i] as u64);
            proof {
                assert(bytes@.take(i + 1).drop_last() =~= bytes@.take(i as int));
            }
            i = i + 1;
        }
        proof {
            assert(bytes@.take(bytes@.len() as int) =~= bytes@);
        }
        self.hash = hash;
    }
}

impl core::hash::Hasher for Fnv1<u64> {
    /// Delegates to `FnvHasher::finish`, so that this hasher can serve a
    /// standard hash table.
    fn finish(&self) -> u64 {
        FnvHasher::finish(self)
    }

    /// Delegates to `FnvHasher::write`: absorbing through the standard
    /// interface updates the accumulator exactly as `FnvHasher::write` does.
    fn write(&mut self, bytes: &[u8])
        ensures
            final(self).digest_spec() == old(self).absorbed_spec(bytes@),
    {
        FnvHasher::write(self, bytes);
    }
}

impl Default for Fnv1<u128> {
    /// An FNV-1 accumulator starts from the offset basis of its width.
    fn default() -> (r: Self)
        ensures
            r.spec_hash() == FNV_OFFSET_BASIS_128,
    {
        Fnv1 { hash: FNV_OFFSET_BASIS_128 }
    }
}

impl Fnv1<u128> {
    /// Creates a new `Fnv1<u128>`, starting from the 128-bit offset basis.
    pub fn new() -> (r: Self)
        ensures
            r.spec_hash() == FNV_OFFSET_BASIS_128,
    {
        Self::default()
    }
}

impl FnvHasher for Fnv1<u128> {
    type Hash = u128;

    open spec fn digest_spec(&self) -> u128 {
        self.spec_hash()
    }

    open spec fn absorbed_spec(&self, bytes: Seq<u8>) -> u128 {
        fold_mul_xor_128(self.spec_hash(), bytes)
    }

    fn finish(&self) -> (r: u128) {
        self.hash
    }

    fn write(&mut self, bytes: &[u8]) {
        let ghost h0: u128 = self.spec_hash();
        let mut hash: u128 = self.hash;
        let mut i: usize = 0;
        while i < bytes.len()
            invariant
                i <= bytes@.len(),
                hash == fold_mul_xor_128(h0, bytes@.take(i as int)),
            decreases bytes@.len() - i,
        {
            hash = hash.wrapping_mul(FNV_PRIME_128);
            hash = hash ^ (bytes[i] as u128);
            proof {
                assert(bytes@.take(i + 1).drop_last() =~= bytes@.take(i as int));
            }
            i = i + 1;
        }
        proof {
            assert(bytes@.take(bytes@.len() as int) =~= bytes@);
        }
        self.hash = hash;
    }
}

impl Default for Fnv1a<u32> {
    /// An FNV-1a accumulator starts from the offset basis of its width.
    fn default() -> (r: Self)
        ensures
            r.spec_hash() == FNV_OFFSET_BASIS_32,
    {
        Fnv1a { hash: FNV_OFFSET_BASIS_32 }
    }
}

impl Fnv1a<u32> {
    /// Creates a new `Fnv1a<u32>`, starting from the 32-bit offset basis.
    pub fn new() -> (r: Self)
        ensures
            r.spec_hash() == FNV_OFFSET_BASIS_32,
    {
        Self::default()
    }
}

impl FnvHasher for Fnv1a<u32> {
    type Hash = u32;

    open spec fn digest_spec(&self) -> u32 {
        self.spec_hash()
    }

    open spec fn absorbed_spec(&self, bytes: Seq<u8>) -> u32 {
        fold_xor_mul_32(self.spec_hash(), bytes)
    }

    fn finish(&self) -> (r: u32) {
        self.hash
    }

    fn write(&mut self, bytes: &[u8]) {
        let ghost h0: u32 = self.spec_hash();
        let mut hash: u32 = self.hash;
        let mut i: usize = 0;
        while i < bytes.len()
            invariant
                i <= bytes@.len(),
                hash == fold_xor_mul_32(h0, bytes@.take(i as int)),
            decreases bytes@.len() - i,
        {
            hash = hash ^ (bytes[i] as u32);
            hash = hash.wrapping_mul(FNV_PRIME_32);
            proof {
                assert(bytes@.take(i + 1).drop_last() =~= bytes@.take(i as int));
            }
            i = i + 1;
        }
        proof {
            assert(bytes@.take(bytes@.len() as int) =~= bytes@);
        }
        self.hash = hash;
    }
}

impl Default for Fnv1a<u64> {
    /// An FNV-1a accumulator starts from the offset basis of its width.
    fn default() -> (r: Self)
        ensures
            r.spec_hash() == FNV_OFFSET_BASIS_64,
    {
        Fnv1a { hash: FNV_OFFSET_BASIS_64 }
    }
}

impl Fnv1a<u64> {
    /// Creates a new `Fnv1a<u64>`, starting from the 64-bit offset basis.
    pub fn new() -> (r: Self)
        ensures
            r.spec_hash() == FNV_OFFSET_BASIS_64,
    {
        Self::default()
    }
}

impl FnvHasher for Fnv1a<u64> {
    type Hash = u64;

    open spec fn digest_spec(&self) -> u64 {
        self.spec_hash()
    }

    open spec fn absorbed_spec(&self, bytes: Seq<u8>) -> u64 {
        fold_xor_mul_64(self.spec_hash(), bytes)
    }

    fn finish(&self) -> (r: u64) {
        self.hash
    }

    fn write(&mut self, bytes: &[u8]) {
        let ghost h0: u64 = self.spec_hash();
        let mut hash: u64 = self.hash;
        let mut i: usize = 0;
        while i < bytes.len()
            invariant
                i <= bytes@.len(),
                hash == fold_xor_mul_64(h0, bytes@.take(i as int)),
            decreases bytes@.len() - i,
        {
            hash = hash ^ (bytes[i] as u64);
            hash = hash.wrapping_mul(FNV_PRIME_64);
            proof {
                assert(bytes@.take(i + 1).drop_last() =~= bytes@.take(i as int));
            }
            i = i + 1;
        }
        proof {
            assert(bytes@.take(bytes@.len() as int) =~= bytes@);
        }
        self.hash = hash;
    }
}

impl core::hash::Hasher for Fnv1a<u64> {
    /// Delegates to `FnvHasher::finish`, so that this hasher can serve a
    /// standard hash table.
    fn finish(&self) -> u64 {
        FnvHasher::finish(self)
    }

    /// Delegates to `FnvHasher::write`: absorbing through the standard
    /// interface updates the accumulator exactly as `FnvHasher::write` does.
    fn write(&mut self, bytes: &[u8])
        ensures
            final(self).digest_spec() == old(self).absorbed_spec(bytes@),
    {
        FnvHasher::write(self, bytes);
    }
}

impl Default for Fnv1a<u128> {
    /// An FNV-1a accumulator starts from the offset basis of its width.
    fn default() -> (r: Self)
        ensures
            r.spec_hash() == FNV_OFFSET_BASIS_128,
    {
        Fnv1a { hash: FNV_OFFSET_BASIS_128 }
    }
}

impl Fnv1a<u128> {
    /// Creates a new `Fnv1a<u128>`, starting from the 128-bit offset basis.
    pub fn new() -> (r: Self)
        ensures
            r.spec_hash() == FNV_OFFSET_BASIS_128,
    {
        Self::default()
    }
}

impl FnvHasher for Fnv1a<u128> {
    type Hash = u128;

    open spec fn digest_spec(&self) -> u128 {
        self.spec_hash()
    }

    open spec fn absorbed_spec(&self, bytes: Seq<u8>) -> u128 {
        fold_xor_mul_128(self.spec_hash(), bytes)
    }

    fn finish(&self) -> (r: u128) {
        self.hash
    }

    fn write(&mut self, bytes: &[u8]) {
        let ghost h0: u128 = self.spec_hash();
        let mut hash: u128 = self.hash;
        let mut i: usize = 0;
        while i < bytes.len()
            invariant
                i <= bytes@.len(),
                hash == fold_xor_mul_128(h0, bytes@.take(i as int)),
            decreases bytes@.len() - i,
        {
            hash = hash ^ (bytes[i] as u128);
            hash = hash.wrapping_mul(FNV_PRIME_128);
            proof {
                assert(bytes@.take(i + 1).drop_last() =~= bytes@.take(i as int));
            }
            i = i + 1;
        }
        proof {
            assert(bytes@.take(bytes@.len() as int) =~= bytes@);
        }
        self.hash = hash;
    }
}

} // verus!
