//! SHA-256 of `sha2`, printed as lower-case hexadecimal.

use vstd::prelude::*;

verus! {

/// The SHA-256 digest of `data` as 64 lower-case hexadecimal digits.
pub uninterp spec fn sha256_hex(data: Seq<u8>) -> Seq<char>;

/// `true` for the sixteen lower-case hexadecimal digits.
pub open spec fn is_lower_hex(c: char) -> bool {
    ('0' <= c && c <= '9') || ('a' <= c && c <= 'f')
}

/// `sha2::Sha256::digest`, formatted with `{:x}`: the 32 bytes of the digest,
/// two lower-case hexadecimal digits each.
#[verifier::external_body]
pub(crate) fn sha256_hex_digest(data: &[u8]) -> (digest: String)
    ensures
        digest@ == sha256_hex(data@),
        digest@.len() == 64,
        forall|i: int| 0 <= i < 64 ==> is_lower_hex(#[trigger] digest@[i]),
{
    format!("{:x}", <sha2::Sha256 as sha2::Digest>::digest(data))
}

} // verus!
