//! SHA-256, used to derive entity keys.

use vstd::prelude::*;

verus! {

/// The SHA-256 digest of a byte string.
pub uninterp spec fn sha256_digest(data: Seq<u8>) -> Seq<u8>;

/// SHA-256 of `data`.
///
/// Trusted: calls `sha2::Sha256::digest`, whose 32-byte output is a function of
/// the input bytes alone.
#[verifier::external_body]
pub(crate) fn sha256(data: &[u8]) -> (r: [u8; 32])
    ensures
        r@ == sha256_digest(data@),
{
    let out = <sha2::Sha256 as sha2::Digest>::digest(data);
    let mut key = [0u8; 32];
    key.copy_from_slice(&out);
    key
}

} // verus!
