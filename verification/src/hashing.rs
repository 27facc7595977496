//! The fixed-output hash functions used elsewhere for storage-key
//! hashing.  Each is a deterministic outside computation named as such;
//! nothing else in the library depends on them.

use vstd::prelude::*;

verus! {

/// The 16-byte blake2b digest: a function of the data alone.
pub uninterp spec fn blake2b128_of(data: Seq<u8>) -> Seq<u8>;

/// Relies on sp-core-hashing's `blake2_128`: a deterministic 16-byte
/// blake2b digest of the input.
#[verifier::external_body]
pub fn blake2b128(data: &[u8]) -> (r: Vec<u8>)
    ensures
        r@ == blake2b128_of(data@),
        r@.len() == 16,
{
    sp_core_hashing::blake2_128(data).to_vec()
}

/// The 8-byte xxhash64 digest: a function of the data alone.
pub uninterp spec fn xx64_of(data: Seq<u8>) -> Seq<u8>;

/// Relies on sp-core-hashing's `twox_64`: a deterministic 8-byte
/// xxhash64 digest of the input.
#[verifier::external_body]
pub fn xx64(data: &[u8]) -> (r: Vec<u8>)
    ensures
        r@ == xx64_of(data@),
        r@.len() == 8,
{
    sp_core_hashing::twox_64(data).to_vec()
}

/// The 16-byte double-xxhash64 digest: a function of the data alone.
pub uninterp spec fn xx128_of(data: Seq<u8>) -> Seq<u8>;

/// Relies on sp-core-hashing's `twox_128`: a deterministic 16-byte
/// digest built from two seeded xxhash64 runs.
#[verifier::external_body]
pub fn xx128(data: &[u8]) -> (r: Vec<u8>)
    ensures
        r@ == xx128_of(data@),
        r@.len() == 16,
{
    sp_core_hashing::twox_128(data).to_vec()
}

} // verus!
