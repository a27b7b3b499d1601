//! SHA-256 digests of canonical bytes.

use vstd::prelude::*;

use crate::ids::ContentDigest;

verus! {

/// The SHA-256 digest (FIPS 180-4) of `bytes`, as computed by the `sha2` crate.
pub uninterp spec fn sha256_of(bytes: Seq<u8>) -> Seq<u8>;

/// Calls `sha2::Sha256::digest` and copies its 32-byte output.
/// Trusted: the result is the SHA-256 digest of exactly `bytes`; nothing else
/// about the digest function is claimed.
#[verifier::external_body]
fn sha256_bytes(bytes: &[u8]) -> (digest: [u8; 32])
    ensures
        digest@ == sha256_of(bytes@),
{
    let output = <sha2::Sha256 as sha2::Digest>::digest(bytes);
    let mut value = [0u8; 32];
    value.copy_from_slice(&output);
    value
}

impl ContentDigest {
    /// Computes the stable SHA-256 digest used by the canonical encoding
    /// contract.
    pub fn sha256(bytes: &[u8]) -> (digest: ContentDigest)
        ensures
            digest.0@ == sha256_of(bytes@),
    {
        ContentDigest(sha256_bytes(bytes))
    }
}

} // verus!
