//! The one-way digest under which passwords are stored and compared.
//!
//! The digest is a single unsalted SHA-256. Two accounts with the same
//! password have the same digest, and the digest is cheap to compute: this is
//! what the stored data expects, not a recommendation.

use crate::bindings::digest::{is_lower_hex, sha256_hex, sha256_hex_digest};
use vstd::prelude::*;

verus! {

/// The digest of `plaintext`: SHA-256 of its UTF-8 bytes in lower-case
/// hexadecimal.
pub open spec fn password_digest(plaintext: Seq<char>) -> Seq<char> {
    sha256_hex(vstd::utf8::encode_utf8(plaintext))
}

/// The stateless hashing component.
pub struct PasswordHasher;

impl PasswordHasher {
    /// Digests `plaintext`. The same plaintext always has the same digest,
    /// and every digest is 64 hexadecimal digits long.
    pub fn hash(plaintext: &str) -> (digest: String)
        ensures
            digest@ == password_digest(plaintext@),
            digest@.len() == 64,
            forall|i: int| 0 <= i < 64 ==> is_lower_hex(#[trigger] digest@[i]),
    {
        sha256_hex_digest(plaintext.as_bytes())
    }
}

} // verus!
