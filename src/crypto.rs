//! Hashing, key-stream and encoding primitives, and a constant-time
//! comparison of byte strings.

use vstd::prelude::*;

verus! {

/// The SHA-256 digest of a byte string.
pub uninterp spec fn sha256_of(data: Seq<u8>) -> Seq<u8>;

/// The first 32-byte block of the ChaCha stream seeded with
/// `SHA-256(seed || entropy)`.
pub uninterp spec fn prng_block(seed: Seq<u8>, entropy: Seq<u8>) -> Seq<u8>;

/// The standard, padded base64 text of a byte string.
pub uninterp spec fn base64_of(data: Seq<u8>) -> Seq<char>;

/// Relies on `secret_toolkit::crypto::sha_256`: a 32-byte digest that depends
/// on the input bytes alone.
#[verifier::external_body]
pub(crate) fn sha_256(data: &[u8]) -> (r: Vec<u8>)
    ensures
        r@ == sha256_of(data@),
        r@.len() == 32,
{
    secret_toolkit::crypto::sha_256(data).to_vec()
}

/// Relies on `secret_toolkit::crypto::ContractPrng::new` followed by one
/// `rand_bytes`: a ChaCha generator seeded from the digest of `seed` and
/// `entropy`, so the 32 bytes depend on those two inputs alone.
#[verifier::external_body]
pub(crate) fn prng_bytes(seed: &[u8], entropy: &[u8]) -> (r: Vec<u8>)
    ensures
        r@ == prng_block(seed@, entropy@),
        r@.len() == 32,
{
    let mut rng = secret_toolkit::crypto::ContractPrng::new(seed, entropy);
    rng.rand_bytes().to_vec()
}

/// Relies on `cosmwasm_std::Binary::to_base64`: standard base64 of the bytes.
#[verifier::external_body]
pub(crate) fn to_base64(data: &[u8]) -> (r: String)
    ensures
        r@ == base64_of(data@),
{
    secret_cosmwasm_std::Binary::from(data).to_base64()
}

/// Compares two byte strings in time that depends on their lengths only:
/// every byte pair is visited, with no early exit on a mismatch.
pub fn ct_eq(a: &[u8], b: &[u8]) -> (r: bool)
    ensures
        r == (a@ == b@),
{
    if a.len() != b.len() {
        return false;
    }
    let mut diff: u8 = 0;
    let mut i: usize = 0;
    while i < a.len()
        invariant
            a@.len() == b@.len(),
            i <= a@.len(),
            (diff == 0) == (forall|j: int| 0 <= j < i ==> a@[j] == b@[j]),
        decreases a@.len() - i,
    {
        let x: u8 = a[i];
        let y: u8 = b[i];
        let d: u8 = diff;
        assert((d | (x ^ y)) == 0 <==> (d == 0 && x == y)) by (bit_vector);
        diff = d | (x ^ y);
        i = i + 1;
    }
    proof {
        if diff == 0 {
            assert(a@ =~= b@);
        }
    }
    diff == 0
}

} // verus!
