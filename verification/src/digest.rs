//! BLAKE3 digests.

use vstd::prelude::*;

verus! {

/// The BLAKE3 digest of a byte string: what `blake3::hash` returns.
pub uninterp spec fn blake3_digest(data: Seq<u8>) -> Seq<u8>;

/// `blake3::hash`: the 32-byte BLAKE3 digest of `data`. The digest is a
/// function of the bytes alone; nothing more is claimed of it.
#[verifier::external_body]
pub(crate) fn blake3_hash(data: &[u8]) -> (digest: [u8; 32])
    ensures
        digest@ == blake3_digest(data@),
{
    *blake3::hash(data).as_bytes()
}

} // verus!
