//! The fixed-size message digest used by the pre-hashing policy of the
//! lattice-based adapters.

use vstd::prelude::*;
use sha2::Digest;

verus! {

/// What SHA-256 digests a byte sequence to.
pub uninterp spec fn sha256_of(m: Seq<u8>) -> Seq<u8>;

/// Relies on sha2's `Sha256::digest`: a 32-byte digest that is a function of
/// the input bytes alone.
#[verifier::external_body]
pub(crate) fn sha256(msg: &[u8]) -> (r: Vec<u8>)
    ensures
        r@ == sha256_of(msg@),
        r@.len() == 32,
{
    sha2::Sha256::digest(msg).to_vec()
}

} // verus!
