//! SHA-256 digests, as the `sha256` crate writes them.

use vstd::prelude::*;

verus! {

/// `c` is one of the sixteen digits `0` to `9` and `a` to `f`.
pub open spec fn is_hex_digit(c: char) -> bool {
    ('0' <= c && c <= '9') || ('a' <= c && c <= 'f')
}

/// `text` has the shape of a digest: 64 digits, each `0` to `9` or `a` to `f`.
pub open spec fn is_hex_digest(text: Seq<char>) -> bool {
    text.len() == 64 && forall|i: int| 0 <= i < text.len() ==> is_hex_digit(#[trigger] text[i])
}

/// The SHA-256 digest of `data`, written as hexadecimal text.
///
/// This names the result of `sha256::digest` on a slice of bytes, which
/// depends on the bytes alone.
pub uninterp spec fn sha256_hex_of(data: Seq<u8>) -> Seq<char>;

/// Computes the SHA-256 digest of `data` as hexadecimal text.
///
/// Wraps `sha256::digest` for `&[u8]`, which hashes the bytes with SHA-256 and
/// writes the 32 bytes of the digest with `hex::encode`, two small
/// hexadecimal digits for each byte. The contract gives the result its name
/// and states this shape.
#[verifier::external_body]
pub(crate) fn sha256_hex(data: &[u8]) -> (digest: String)
    ensures
        digest@ == sha256_hex_of(data@),
        is_hex_digest(digest@),
{
    sha256::digest(data)
}

} // verus!
