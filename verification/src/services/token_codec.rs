//! Signing claims into tokens and reading them back.
//!
//! A token is a compact JWT signed with HMAC-SHA256 under a shared secret.
//! Its payload has five members: `sub`, `username` and `token_type` as
//! strings, `exp` and `iat` as integers.

use crate::bindings::ident::{uuid_format, uuid_parse, uuid_text, uuid_value};
use crate::bindings::json::{
    json_get_int, json_get_text, json_ints, json_is_flat, json_keys, json_object, json_put_int,
    json_put_text, json_texts, JsonInts, JsonObject, JsonTexts,
};
use crate::bindings::jwt::{
    hs256_decode, hs256_token, jwt_decode, jwt_encode, DecodeFailure, Payload,
};
use crate::services::token_policy::TokenType;
use vstd::prelude::*;

verus! {

/// The signed payload of a token: who it is for, what it may authorize and
/// when it is valid. A value is made once per issuance and never changed.
#[derive(Debug)]
pub struct Claims {
    /// The account that the token is for.
    pub sub: u128,
    /// The account's username when the token was issued.
    pub username: String,
    pub token_type: TokenType,
    /// The end of validity, in seconds since the Unix epoch.
    pub exp: i64,
    /// The time of issuance, in seconds since the Unix epoch.
    pub iat: i64,
}

/// [`Claims`] with the username as a sequence of characters.
pub struct ClaimsView {
    pub sub: u128,
    pub username: Seq<char>,
    pub token_type: TokenType,
    pub exp: i64,
    pub iat: i64,
}

impl View for Claims {
    type V = ClaimsView;

    open spec fn view(&self) -> ClaimsView {
        ClaimsView {
            sub: self.sub,
            username: self.username@,
            token_type: self.token_type,
            exp: self.exp,
            iat: self.iat,
        }
    }
}

impl Clone for Claims {
    fn clone(&self) -> (copy: Self)
        ensures
            copy@ == self@,
    {
        Claims {
            sub: self.sub,
            username: self.username.clone(),
            token_type: self.token_type,
            exp: self.exp,
            iat: self.iat,
        }
    }
}

/// Why a token was not accepted by [`TokenCodec::verify`].
#[derive(Debug, Clone, Copy, PartialEq, Eq, Structural)]
pub enum CodecError {
    /// The signature is not the one that the secret gives.
    InvalidSignature,
    /// The token is genuine, but its validity has ended.
    Expired,
    /// The text is no token, or its payload lacks a member or has one of the
    /// wrong kind.
    Malformed,
}

/// The name under which a token type stands in a payload.
pub open spec fn token_type_name(token_type: TokenType) -> Seq<char> {
    match token_type {
        TokenType::Access => "Access"@,
        TokenType::PasswordChangeOnly => "PasswordChangeOnly"@,
        TokenType::Refresh => "Refresh"@,
    }
}

/// The token type that `name` names, if any.
pub open spec fn token_type_named(name: Seq<char>) -> Option<TokenType> {
    if name == "Access"@ {
        Some(TokenType::Access)
    } else if name == "PasswordChangeOnly"@ {
        Some(TokenType::PasswordChangeOnly)
    } else if name == "Refresh"@ {
        Some(TokenType::Refresh)
    } else {
        None
    }
}

/// The string members of the payload that carries `claims`.
pub open spec fn claims_texts(claims: ClaimsView) -> JsonTexts {
    JsonTexts::empty().insert("sub"@, uuid_text(claims.sub)).insert(
        "username"@,
        claims.username,
    ).insert("token_type"@, token_type_name(claims.token_type))
}

/// The integer members of the payload that carries `claims`.
pub open spec fn claims_ints(claims: ClaimsView) -> JsonInts {
    JsonInts::empty().insert("exp"@, claims.exp as int).insert("iat"@, claims.iat as int)
}

/// The token that signing `claims` under `secret` gives.
pub open spec fn signed_token(claims: ClaimsView, secret: Seq<char>) -> Seq<char> {
    hs256_token(claims_texts(claims), claims_ints(claims), secret)
}

/// The claims that a payload carries: `None` where one of the five members is
/// missing or of the wrong kind, where `sub` spells no identifier, or where
/// `token_type` names no token type.
pub open spec fn payload_claims(payload: Payload) -> Option<ClaimsView> {
    let texts = payload.0;
    let ints = payload.1;
    if texts.contains_key("sub"@) && texts.contains_key("username"@) && texts.contains_key(
        "token_type"@,
    ) && ints.contains_key("exp"@) && ints.contains_key("iat"@) && uuid_value(texts["sub"@])
        is Some && token_type_named(texts["token_type"@]) is Some && i64::MIN <= ints["exp"@]
        <= i64::MAX && i64::MIN <= ints["iat"@] <= i64::MAX {
        Some(
            ClaimsView {
                sub: uuid_value(texts["sub"@])->0,
                username: texts["username"@],
                token_type: token_type_named(texts["token_type"@])->0,
                exp: ints["exp"@] as i64,
                iat: ints["iat"@] as i64,
            },
        )
    } else {
        None
    }
}

/// What a token says under a secret, its expiry left aside: the claims of a
/// token that is well formed and signed with the secret, else the reason.
pub open spec fn decoded_claims(token: Seq<char>, secret: Seq<char>) -> Result<
    ClaimsView,
    CodecError,
> {
    match hs256_decode(token, secret) {
        Ok(payload) => match payload_claims(payload) {
            Some(claims) => Ok(claims),
            None => Err(CodecError::Malformed),
        },
        Err(DecodeFailure::BadSignature) => Err(CodecError::InvalidSignature),
        Err(DecodeFailure::Malformed) => Err(CodecError::Malformed),
    }
}

/// What verification of a token gives at the time `now`: its claims where it
/// is well formed, signed with the secret and `now` is before its expiry.
pub open spec fn verified_claims(token: Seq<char>, secret: Seq<char>, now: i64) -> Result<
    ClaimsView,
    CodecError,
> {
    match decoded_claims(token, secret) {
        Ok(claims) => if now < claims.exp {
            Ok(claims)
        } else {
            Err(CodecError::Expired)
        },
        Err(error) => Err(error),
    }
}

/// `true` where `outcome` is `expected` with the claims taken by their view.
pub open spec fn is_outcome(
    outcome: Result<Claims, CodecError>,
    expected: Result<ClaimsView, CodecError>,
) -> bool {
    match outcome {
        Ok(claims) => expected == Ok::<ClaimsView, CodecError>(claims@),
        Err(error) => expected == Err::<ClaimsView, CodecError>(error),
    }
}

/// The five member names differ from each other.
proof fn lemma_member_names_differ()
    ensures
        "sub"@ != "username"@,
        "sub"@ != "token_type"@,
        "sub"@ != "exp"@,
        "sub"@ != "iat"@,
        "username"@ != "token_type"@,
        "username"@ != "exp"@,
        "username"@ != "iat"@,
        "token_type"@ != "exp"@,
        "token_type"@ != "iat"@,
        "exp"@ != "iat"@,
{
    reveal_strlit("sub");
    reveal_strlit("username");
    reveal_strlit("token_type");
    reveal_strlit("exp");
    reveal_strlit("iat");
    assert("username"@.len() == 8);
    assert("token_type"@.len() == 10);
    assert("sub"@.len() == 3);
    assert("exp"@.len() == 3);
    assert("iat"@.len() == 3);
    assert("sub"@[0] != "exp"@[0]);
    assert("sub"@[0] != "iat"@[0]);
    assert("exp"@[0] != "iat"@[0]);
}

/// Each token type is the one that its name names.
pub proof fn lemma_token_type_name_round_trip(token_type: TokenType)
    ensures
        token_type_named(token_type_name(token_type)) == Some(token_type),
{
    reveal_strlit("Access");
    reveal_strlit("PasswordChangeOnly");
    reveal_strlit("Refresh");
    assert("Access"@.len() == 6);
    assert("PasswordChangeOnly"@.len() == 18);
    assert("Refresh"@.len() == 7);
}

/// The payload that carries `claims` reads back as `claims`, provided the text
/// of the subject reads back as the subject.
pub proof fn lemma_payload_round_trip(claims: ClaimsView)
    requires
        uuid_value(uuid_text(claims.sub)) == Some(claims.sub),
    ensures
        payload_claims((claims_texts(claims), claims_ints(claims))) == Some(claims),
{
    lemma_member_names_differ();
    lemma_token_type_name_round_trip(claims.token_type);
}

/// The stateless codec component.
pub struct TokenCodec;

impl TokenCodec {
    /// The name of `token_type` as it stands in a payload.
    pub fn name_of(token_type: TokenType) -> (name: String)
        ensures
            name@ == token_type_name(token_type),
    {
        match token_type {
            TokenType::Access => String::from_str("Access"),
            TokenType::PasswordChangeOnly => String::from_str("PasswordChangeOnly"),
            TokenType::Refresh => String::from_str("Refresh"),
        }
    }

    /// The token type that `name` names, if any.
    pub fn type_named(name: &String) -> (token_type: Option<TokenType>)
        ensures
            token_type == token_type_named(name@),
    {
        if *name == String::from_str("Access") {
            Some(TokenType::Access)
        } else if *name == String::from_str("PasswordChangeOnly") {
            Some(TokenType::PasswordChangeOnly)
        } else if *name == String::from_str("Refresh") {
            Some(TokenType::Refresh)
        } else {
            None
        }
    }

    /// The payload that carries `claims`: the five members and no others,
    /// and it reads back as `claims`.
    pub fn payload_of(claims: &Claims) -> (payload: JsonObject)
        ensures
            json_texts(payload) == claims_texts(claims@),
            json_ints(payload) == claims_ints(claims@),
            json_is_flat(payload),
            payload_claims((json_texts(payload), json_ints(payload))) == Some(claims@),
    {
        let subject = uuid_format(claims.sub);
        let kind = Self::name_of(claims.token_type);
        let mut payload = json_object();
        json_put_text(&mut payload, "sub", subject.as_str());
        json_put_text(&mut payload, "username", claims.username.as_str());
        json_put_text(&mut payload, "token_type", kind.as_str());
        json_put_int(&mut payload, "exp", claims.exp);
        json_put_int(&mut payload, "iat", claims.iat);
        proof {
            lemma_member_names_differ();
            assert(json_texts(payload) =~= claims_texts(claims@));
            assert(json_ints(payload) =~= claims_ints(claims@));
            assert(json_keys(payload) =~= json_texts(payload).dom().union(
                json_ints(payload).dom(),
            ));
            lemma_payload_round_trip(claims@);
        }
        payload
    }

    /// Signs `claims` under `secret`: the payload of [`TokenCodec::payload_of`]
    /// goes to the encoder. Signing always succeeds. The token is the one
    /// that the claims and the secret determine, and it decodes under the
    /// same secret to exactly these claims. The result keeps the shape of the
    /// encoder's, whose error would come back as its text.
    pub fn sign(claims: &Claims, secret: &str) -> (token: Result<String, String>)
        ensures
            token is Ok,
            token matches Ok(text) ==> text@ == signed_token(claims@, secret@),
            token matches Ok(text) ==> decoded_claims(text@, secret@) == Ok::<
                ClaimsView,
                CodecError,
            >(claims@),
    {
        let payload = Self::payload_of(claims);
        jwt_encode(&payload, secret)
    }

    /// Reads the five members out of a decoded payload.
    pub fn claims_of(payload: &JsonObject) -> (claims: Option<Claims>)
        ensures
            match claims {
                Some(found) => payload_claims((json_texts(*payload), json_ints(*payload)))
                    == Some(found@),
                None => payload_claims((json_texts(*payload), json_ints(*payload))) is None,
            },
    {
        let subject = match json_get_text(payload, "sub") {
            Some(text) => text,
            None => { return None; },
        };
        let username = match json_get_text(payload, "username") {
            Some(text) => text,
            None => { return None; },
        };
        let kind = match json_get_text(payload, "token_type") {
            Some(text) => text,
            None => { return None; },
        };
        let exp = match json_get_int(payload, "exp") {
            Some(number) => number,
            None => { return None; },
        };
        let iat = match json_get_int(payload, "iat") {
            Some(number) => number,
            None => { return None; },
        };
        let sub = match uuid_parse(subject.as_str()) {
            Some(id) => id,
            None => { return None; },
        };
        let token_type = match Self::type_named(&kind) {
            Some(named) => named,
            None => { return None; },
        };
        Some(Claims { sub, username, token_type, exp, iat })
    }

    /// Decodes `token` under `secret` without looking at its expiry.
    pub fn decode(token: &str, secret: &str) -> (outcome: Result<Claims, CodecError>)
        ensures
            is_outcome(outcome, decoded_claims(token@, secret@)),
    {
        match jwt_decode(token, secret) {
            Ok(payload) => match Self::claims_of(&payload) {
                Some(claims) => Ok(claims),
                None => Err(CodecError::Malformed),
            },
            Err(DecodeFailure::BadSignature) => Err(CodecError::InvalidSignature),
            Err(DecodeFailure::Malformed) => Err(CodecError::Malformed),
        }
    }

    /// Verifies `token` under `secret` at the time `now`: the signature must
    /// be the one that the secret gives, the payload must carry claims, and
    /// `now` must be before the expiry. Invalidation cutoffs are not looked
    /// at here.
    pub fn verify(token: &str, secret: &str, now: i64) -> (outcome: Result<Claims, CodecError>)
        ensures
            is_outcome(outcome, verified_claims(token@, secret@, now)),
    {
        match Self::decode(token, secret) {
            Ok(claims) => if now < claims.exp {
                Ok(claims)
            } else {
                Err(CodecError::Expired)
            },
            Err(error) => Err(error),
        }
    }
}

/// Signing and then verifying gives the claims back: a token that
/// [`TokenCodec::sign`] returned for `claims` verifies under the same secret,
/// at any time before the expiry, to the same subject, username, type,
/// issued-at and expiry; from the expiry on it is reported as expired.
pub proof fn lemma_sign_then_verify(
    claims: ClaimsView,
    secret: Seq<char>,
    token: Seq<char>,
    now: i64,
)
    requires
        decoded_claims(token, secret) == Ok::<ClaimsView, CodecError>(claims),
    ensures
        now < claims.exp ==> verified_claims(token, secret, now) == Ok::<ClaimsView, CodecError>(
            claims,
        ),
        now >= claims.exp ==> verified_claims(token, secret, now) == Err::<
            ClaimsView,
            CodecError,
        >(CodecError::Expired),
{
}

} // verus!
