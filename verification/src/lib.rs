//! The Fowler-Noll-Vo (FNV) family of non-cryptographic hash functions:
//! FNV-0, FNV-1 and FNV-1a, over 32-, 64- and 128-bit accumulators.

pub mod hashers;
pub mod laws;
pub mod model;

pub use hashers::Fnv0;
pub use hashers::Fnv1;
pub use hashers::Fnv1a;
pub use hashers::FnvHasher;
