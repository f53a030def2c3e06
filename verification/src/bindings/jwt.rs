//! Compact signed tokens of `jsonwebtoken`, always with HMAC-SHA256 and a
//! shared secret.

use crate::bindings::json::{json_ints, json_is_flat, json_texts, JsonInts, JsonObject, JsonTexts};
use vstd::prelude::*;

verus! {

/// Why a token was not decoded.
#[derive(Debug, Clone, Copy, PartialEq, Eq, Structural)]
pub enum DecodeFailure {
    /// The token has the shape of a token, but its signature is not the one
    /// that the secret gives for its header and payload.
    BadSignature,
    /// Anything else: not three parts, bad base64 or JSON, another algorithm.
    Malformed,
}

/// The string and integer members of a decoded payload.
pub type Payload = (JsonTexts, JsonInts);

/// The outcome of decoding a token.
pub type Decoded = Result<Payload, DecodeFailure>;

/// What decoding `token` under `secret` gives: the members of its payload
/// where the token is well formed and signed with `secret`, else the reason.
pub uninterp spec fn hs256_decode(token: Seq<char>, secret: Seq<char>) -> Decoded;

/// The token that encoding a payload with these string and integer members,
/// and no others, gives under `secret`.
pub uninterp spec fn hs256_token(texts: JsonTexts, ints: JsonInts, secret: Seq<char>) -> Seq<char>;

/// `jsonwebtoken::encode` with an HS256 header and the key
/// `EncodingKey::from_secret`, for a payload whose members are all strings or
/// integers. Three things are claimed.
///
/// The call succeeds: the key is of the family of the header's algorithm, a
/// header and an object of strings and integers serialise without error, and
/// signing with HS256 cannot fail.
///
/// The token depends on the members and the secret alone: the encoder writes
/// a fixed header, the members in the order of their keys, and the keyed
/// digest of both.
///
/// Decoding the token under the same secret succeeds and yields the same
/// members: the decoder recomputes the signature over the same text and
/// parses the JSON that the encoder wrote.
///
/// The error of the outside call is handed on as its text.
#[verifier::external_body]
pub(crate) fn jwt_encode(payload: &JsonObject, secret: &str) -> (token: Result<String, String>)
    requires
        json_is_flat(*payload),
    ensures
        token is Ok,
        token matches Ok(t) ==> t@ == hs256_token(json_texts(*payload), json_ints(*payload), secret@),
        token matches Ok(t) ==> hs256_decode(t@, secret@) == Decoded::Ok(
            (json_texts(*payload), json_ints(*payload)),
        ),
{
    let header = jsonwebtoken::Header::new(jsonwebtoken::Algorithm::HS256);
    let key = jsonwebtoken::EncodingKey::from_secret(secret.as_bytes());
    match jsonwebtoken::encode(&header, payload, &key) {
        Ok(token) => Ok(token),
        Err(error) => Err(format!("{}", error)),
    }
}

/// `jsonwebtoken::decode` for HS256 with the key `DecodingKey::from_secret`
/// and with every check of claims switched off, so that the outcome depends on
/// the token and the secret alone: the signature is checked and the payload is
/// parsed, nothing more. The error kind `InvalidSignature` comes back as
/// `BadSignature`, every other kind as `Malformed`.
#[verifier::external_body]
pub(crate) fn jwt_decode(token: &str, secret: &str) -> (outcome: Result<JsonObject, DecodeFailure>)
    ensures
        outcome matches Ok(object) ==> hs256_decode(token@, secret@) == Decoded::Ok(
            (json_texts(object), json_ints(object)),
        ),
        outcome matches Err(failure) ==> hs256_decode(token@, secret@) == Decoded::Err(failure),
{
    let mut checks = jsonwebtoken::Validation::new(jsonwebtoken::Algorithm::HS256);
    checks.validate_exp = false;
    checks.validate_aud = false;
    checks.required_spec_claims.clear();
    let key = jsonwebtoken::DecodingKey::from_secret(secret.as_bytes());
    match jsonwebtoken::decode::<JsonObject>(token, &key, &checks) {
        Ok(data) => Ok(data.claims),
        Err(error) => match error.kind() {
            jsonwebtoken::errors::ErrorKind::InvalidSignature => Err(DecodeFailure::BadSignature),
            _ => Err(DecodeFailure::Malformed),
        },
    }
}

} // verus!
