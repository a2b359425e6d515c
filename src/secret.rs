//! The unredeemable hash that locks a probe.
use sha2::Digest;
use vstd::prelude::*;

verus! {

/// The SHA-256 digest of a byte string.
pub uninterp spec fn sha256_of(data: Seq<u8>) -> Seq<u8>;

/// Relies on rand::thread_rng and Rng::fill: 32 bytes from a generator
/// seeded by the operating system.
#[verifier::external_body]
fn random_secret() -> (r: Vec<u8>)
    ensures
        r@.len() == 32,
{
    let mut secret = [0u8; 32];
    rand::Rng::fill(&mut rand::thread_rng(), &mut secret);
    secret.to_vec()
}

/// Relies on sha2::Sha256::digest: the SHA-256 digest, 32 bytes long.
#[verifier::external_body]
fn sha256(data: &Vec<u8>) -> (r: Vec<u8>)
    ensures
        r@ == sha256_of(data@),
        r@.len() == 32,
{
    sha2::Sha256::digest(data).to_vec()
}

/// A fresh probe hash: the digest of 32 random bytes, never the bytes
/// themselves, so that nobody holds a preimage for it.
pub fn generate_secret_for_probes() -> (r: Vec<u8>)
    ensures
        r@.len() == 32,
        exists|secret: Seq<u8>| secret.len() == 32 && r@ == sha256_of(secret),
{
    let secret = random_secret();
    let hash = sha256(&secret);
    hash
}

} // verus!
