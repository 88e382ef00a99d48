//! The content digest blocks are mined against: SHA-256 over the UTF-8 bytes
//! of a text, called through the `sha2` crate.

use vstd::prelude::*;

verus! {

/// The SHA-256 digest of the UTF-8 encoding of a character string. The
/// algorithm itself is not restated here; the digest is a pure function of
/// the characters, which is all the mining logic relies on.
pub uninterp spec fn sha256_of(s: Seq<char>) -> Seq<u8>;

/// Relies on sha2::Sha256 (through the `Digest` trait): the digest depends on
/// the input bytes alone and is 32 bytes long.
#[verifier::external_body]
pub fn sha256_str(s: &str) -> (r: Vec<u8>)
    ensures
        r@ == sha256_of(s@),
        r@.len() == 32,
{
    <sha2::Sha256 as sha2::Digest>::digest(s.as_bytes()).to_vec()
}

} // verus!
