//! Chained BLAKE2b-256 hashing seeded by a caller's identity.
use vstd::prelude::*;
use sp_runtime::traits::BlakeTwo256;

verus! {

/// The BLAKE2b-256 digest of a byte string.
pub uninterp spec fn blake2_256_of(data: Seq<u8>) -> Seq<u8>;

/// The eight little-endian bytes of an account identifier, as the SCALE codec
/// writes a `u64`.
pub open spec fn le_bytes(x: u64) -> Seq<u8> {
    Seq::new(8, |i: int| ((x as int / pow256(i)) % 256) as u8)
}

/// `256^i`.
pub open spec fn pow256(i: int) -> int
    decreases i,
{
    if i <= 0 {
        1
    } else {
        256 * pow256(i - 1)
    }
}

/// The digest that a caller's hash chain starts from.
pub open spec fn account_digest(who: u64) -> Seq<u8> {
    blake2_256_of(le_bytes(who))
}

/// `seed` hashed `n` times in a row, each round hashing the previous output.
pub open spec fn repeat_digest(seed: Seq<u8>, n: nat) -> Seq<u8>
    decreases n,
{
    if n == 0 {
        seed
    } else {
        blake2_256_of(repeat_digest(seed, (n - 1) as nat))
    }
}

/// Relies on `Hash::hash` of sp-runtime's `BlakeTwo256`: the BLAKE2b-256
/// digest of the bytes, which depends on the bytes alone.
#[verifier::external_body]
fn blake_two_256(data: &[u8]) -> (r: [u8; 32])
    ensures
        r@ == blake2_256_of(data@),
{
    <BlakeTwo256 as sp_runtime::traits::Hash>::hash(data).0
}

/// Relies on `Hash::hash_of` of sp-runtime's `BlakeTwo256`: the digest of the
/// SCALE encoding of the value, which for a `u64` is its eight little-endian
/// bytes.
#[verifier::external_body]
fn blake_two_256_of_account(who: u64) -> (r: [u8; 32])
    ensures
        r@ == blake2_256_of(le_bytes(who)),
{
    <BlakeTwo256 as sp_runtime::traits::Hash>::hash_of(&who).0
}

/// The digest derived from a caller's identity, from which its hash chain starts.
pub fn account_seed(who: u64) -> (r: [u8; 32])
    ensures
        r@ == account_digest(who),
{
    blake_two_256_of_account(who)
}

/// Hashes `seed` `times` times in sequence, each round hashing the previous output.
pub fn hash_chain(seed: [u8; 32], times: u32) -> (r: [u8; 32])
    ensures
        r@ == repeat_digest(seed@, times as nat),
{
    let mut hashed = seed;
    let mut i: u32 = 0;
    while i < times
        invariant
            i <= times,
            hashed@ == repeat_digest(seed@, i as nat),
        decreases times - i,
    {
        hashed = blake_two_256(hashed.as_slice());
        i = i + 1;
    }
    hashed
}

} // verus!
