//! The Keccak-256 digest, taken from an outside implementation.
use vstd::prelude::*;

verus! {

/// The Keccak-256 digest of a byte string. The digest is a function of the
/// input bytes alone; nothing further is assumed about its value.
pub uninterp spec fn keccak_of(bytes: Seq<u8>) -> Seq<u8>;

/// Relies on ethers_core::utils::keccak256 for the Keccak-256 digest, which
/// is always 32 bytes.
#[verifier::external_body]
pub(crate) fn keccak256(data: &[u8]) -> (r: Vec<u8>)
    ensures
        r@ == keccak_of(data@),
        r@.len() == 32,
{
    ethers_core::utils::keccak256(data).to_vec()
}

} // verus!
