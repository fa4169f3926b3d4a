//! The cryptographic digest that addresses captured content: SHA-1, computed
//! by the `sha1` crate behind a single trusted wrapper.

use vstd::prelude::*;

verus! {

/// The twenty SHA-1 digest bytes of a byte sequence. The digest is a pure
/// function of the input, so it is only named here; the one function below
/// computes it.
pub uninterp spec fn sha1_of(data: Seq<u8>) -> Seq<u8>;

/// Relies on `sha1::Sha1::digest` (via the `Digest` trait the crate
/// re-exports): the SHA-1 digest is twenty bytes determined by the input
/// bytes alone.
#[verifier::external_body]
pub(crate) fn sha1_digest(data: &Vec<u8>) -> (r: Vec<u8>)
    ensures
        r@ == sha1_of(data@),
        r@.len() == 20,
{
    <sha1::Sha1 as sha1::Digest>::digest(data.as_slice()).to_vec()
}

} // verus!
