//! The BLAKE2s hash that binds configurations and reports.

use blake2::Digest;
use vstd::prelude::*;

verus! {

/// The BLAKE2s digest of `data` with 32 bytes of output, no key, salt or
/// personalisation.
pub uninterp spec fn blake2s(data: Seq<u8>) -> Seq<u8>;

/// Calls `Blake2s::digest` of the crate blake2. Trusted: the result is the
/// 32-byte BLAKE2s digest of `data`, and depends on `data` alone.
#[verifier::external_body]
pub(crate) fn blake2s_digest(data: &[u8]) -> (out: Vec<u8>)
    ensures
        out@ == blake2s(data@),
        out@.len() == 32,
{
    blake2::Blake2s::digest(data).to_vec()
}

} // verus!
