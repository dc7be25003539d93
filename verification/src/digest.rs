//! SHA-256, computed by the crate `sha2`.

use sha2::{Digest, Sha256};
use vstd::prelude::*;

verus! {

/// The SHA-256 digest of `data`.
pub uninterp spec fn sha256(data: Seq<u8>) -> Seq<u8>;

/// `Sha256::digest` of the crate `sha2`: hashes `data` in one go and returns
/// the 32 bytes of the digest. Nothing is proved of the hash function; the
/// contract only gives the digest its name, [`sha256`], so that callers can
/// say which bytes were hashed.
#[verifier::external_body]
pub(crate) fn sha256_digest(data: &[u8]) -> (digest: [u8; 32])
    ensures
        digest@ == sha256(data@),
{
    Sha256::digest(data).into()
}

} // verus!
