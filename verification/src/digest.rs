//! The one-way digest that ties a secret to its hashlock.

use sha2::Digest;
use sha2::Sha256;
use vstd::prelude::*;

verus! {

/// The SHA-256 digest of a byte string, as the `sha2` crate computes it.
pub uninterp spec fn sha256_digest(data: Seq<u8>) -> Seq<u8>;

/// Hashes a 32-byte secret with SHA-256.
///
/// Trusted: the body calls `sha2::Sha256::digest` (the `digest` method that
/// the `Digest` trait gives `Sha256`) on the secret's bytes. The contract
/// claims only that the 32 bytes returned are the digest of exactly those
/// bytes, which is a function of the input alone.
#[verifier::external_body]
pub(crate) fn sha256(secret: &[u8; 32]) -> (digest: [u8; 32])
    ensures
        digest@ == sha256_digest(secret@),
{
    Sha256::digest(secret).into()
}

} // verus!
