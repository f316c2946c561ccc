//! The 256-bit digest behind both block hashes and transaction signing.

use vstd::prelude::*;
use sha2::Digest;

verus! {

/// What SHA-256 returns on the UTF-8 encoding of a text. The algorithm is
/// not restated here; the digest is a function of the text alone.
pub uninterp spec fn sha256_of(text: Seq<char>) -> Seq<u8>;

/// Relies on sha2::Sha256: the digest of the text's UTF-8 bytes, always 32
/// bytes long, depending on the text alone.
#[verifier::external_body]
pub(crate) fn sha256_digest(text: &str) -> (r: Vec<u8>)
    ensures
        r@ == sha256_of(text@),
        r@.len() == 32,
{
    sha2::Sha256::digest(text.as_bytes()).to_vec()
}

} // verus!
