//! SHA-256, the digest under every block hash.

use sha2::{Digest, Sha256};
use vstd::prelude::*;

verus! {

/// The SHA-256 digest of `data`. The digest is computed by the `sha2` crate
/// and nothing about its value is known here beyond its being a function of
/// the data.
pub uninterp spec fn sha256(data: Seq<u8>) -> Seq<u8>;

/// `Sha256::new`, one `update` with all of `data`, then `finalize`: the
/// 32-byte SHA-256 digest of `data`.
#[verifier::external_body]
pub(crate) fn sha256_of(data: &[u8]) -> (digest: [u8; 32])
    ensures
        digest@ == sha256(data@),
{
    let mut hasher = Sha256::new();
    hasher.update(data);
    hasher.finalize().into()
}

} // verus!
