//! SHA-256, through the `sha2` crate.
use vstd::prelude::*;
use sha2::Digest;

verus! {

/// The SHA-256 digest of a message.
pub uninterp spec fn sha256_of(message: Seq<u8>) -> Seq<u8>;

/// Hashes `message` with `sha2::Sha256::digest` and returns the 32-byte
/// digest. The contract names the digest and claims nothing else about
/// it; that feeding the message in several `update` calls gives the same
/// digest as one call is what the `Digest` trait documents.
#[verifier::external_body]
pub(crate) fn sha256(message: &[u8]) -> (digest: [u8; 32])
    ensures
        digest@ == sha256_of(message@),
{
    sha2::Sha256::digest(message).into()
}

} // verus!
