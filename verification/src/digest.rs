//! The one cryptographic primitive the core rests on: the SHA-256 digest,
//! taken from the `sha2` crate and named, not restated.

use vstd::prelude::*;

verus! {

/// The SHA-256 digest of a byte string.  The digest is a function of the
/// bytes alone, identical across processes and machines; nothing further is
/// assumed of its value.
pub uninterp spec fn sha256_of(data: Seq<u8>) -> Seq<u8>;

/// Relies on `sha2::Sha256::digest`: the 32-byte SHA-256 digest of the
/// input, a function of the input bytes alone.
#[verifier::external_body]
pub fn sha256(data: &Vec<u8>) -> (r: Vec<u8>)
    ensures
        r@ == sha256_of(data@),
        r@.len() == 32,
{
    <sha2::Sha256 as sha2::Digest>::digest(data.as_slice()).to_vec()
}

} // verus!
