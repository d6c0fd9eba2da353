//! The cryptographic digest behind commitments and the Fiat-Shamir transcript.
//!
//! The digest itself comes from an outside library; this crate only names its
//! result, and every contract that mentions a digest goes through that name.

use vstd::prelude::*;

verus! {

/// The SHA-256 digest of a byte string, named but not stated: it is a
/// function of the input bytes alone, the same in every process.
pub uninterp spec fn sha256_of(data: Seq<u8>) -> Seq<u8>;

/// The digest as the rest of the crate speaks of it: always 32 bytes long,
/// and equal to `sha256_of` wherever the digest function behaves as
/// documented (which the wrapper below promises of every actual call).
pub open spec fn digest_of(data: Seq<u8>) -> Seq<u8> {
    if sha256_of(data).len() == 32 {
        sha256_of(data)
    } else {
        Seq::new(32, |i: int| 0u8)
    }
}

/// A digest is always exactly 32 bytes.
pub proof fn lemma_digest_len(data: Seq<u8>)
    ensures
        digest_of(data).len() == 32,
{
}

/// Relies on sha2's `Sha256` through `Digest::digest`: a 32-byte digest that
/// depends on the input bytes alone.
#[verifier::external_body]
pub fn digest32(data: &[u8]) -> (r: Vec<u8>)
    ensures
        r@ == sha256_of(data@),
        r@.len() == 32,
        r@ == digest_of(data@),
{
    <sha2::Sha256 as sha2::Digest>::digest(data).to_vec()
}

} // verus!
