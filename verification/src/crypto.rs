//! Trusted wrappers around the hash and randomness primitives that the oracle
//! uses: SHA-256, HASH160 and the per-call random nonce.

use vstd::prelude::*;

verus! {

/// The SHA-256 digest of a byte string.
pub uninterp spec fn sha256_of(data: Seq<u8>) -> Seq<u8>;

/// The HASH160 digest (RIPEMD-160 of SHA-256) of a byte string.
pub uninterp spec fn hash160_of(data: Seq<u8>) -> Seq<u8>;

/// Relies on bitcoin::hashes::sha256: the 32-byte digest is a function of the
/// input bytes alone.
#[verifier::external_body]
pub(crate) fn sha256(data: &Vec<u8>) -> (r: Vec<u8>)
    ensures
        r@ == sha256_of(data@),
        r@.len() == 32,
{
    let h = <bitcoin::hashes::sha256::Hash as bitcoin::hashes::Hash>::hash(&data[..]);
    bitcoin::hashes::Hash::into_inner(h).to_vec()
}

/// Relies on bitcoin::hashes::hash160: the 20-byte digest is a function of the
/// input bytes alone.
#[verifier::external_body]
pub(crate) fn hash160(data: &Vec<u8>) -> (r: Vec<u8>)
    ensures
        r@ == hash160_of(data@),
        r@.len() == 20,
{
    let h = <bitcoin::hashes::hash160::Hash as bitcoin::hashes::Hash>::hash(&data[..]);
    bitcoin::hashes::Hash::into_inner(h).to_vec()
}

/// Relies on rand::thread_rng: a fresh 32-byte value; nothing is assumed of
/// its contents beyond the length.
#[verifier::external_body]
pub(crate) fn random_nonce() -> (r: Vec<u8>)
    ensures
        r@.len() == 32,
{
    let bytes: [u8; 32] = rand::Rng::gen(&mut rand::thread_rng());
    bytes.to_vec()
}

} // verus!
