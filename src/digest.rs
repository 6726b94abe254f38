//! The digest backend: a stateless map from an ordered pair of byte buffers
//! to the 32-byte SHA-256 digest of their concatenation.
use sha2::Digest;
use vstd::prelude::*;

verus! {

/// Width in bytes of a digest.
pub const DIGEST_BYTES: usize = 32;

/// The SHA-256 digest of a byte string.
pub uninterp spec fn sha256(data: Seq<u8>) -> Seq<u8>;

/// Relies on `sha2::Sha256` through the `Digest` trait (`new`, `update`,
/// `finalize_into`): updating with `prior` and then with `bytes` hashes their
/// concatenation as one message, and the digest fills the 32-byte array.
#[verifier::external_body]
fn sha256_of_pair(prior: &[u8], bytes: &[u8]) -> (r: [u8; DIGEST_BYTES])
    ensures
        r@ == sha256(prior@ + bytes@),
{
    let mut hasher = sha2::Sha256::new();
    hasher.update(prior);
    hasher.update(bytes);
    let mut out = [0u8; 32];
    hasher.finalize_into((&mut out).into());
    out
}

/// Hashes `prior` followed by `bytes` as a single message.
pub fn digest(prior: &[u8], bytes: &[u8]) -> (r: [u8; DIGEST_BYTES])
    ensures
        r@ == sha256(prior@ + bytes@),
        r@.len() == DIGEST_BYTES,
{
    sha256_of_pair(prior, bytes)
}

} // verus!
