//! The flows: login, token validation, refresh and password change.
//!
//! Each flow is a few decisions around questions to the account store. The
//! decisions are functions of plain values, so that a deployment can put them
//! around its own store; the flows themselves are given here over
//! [`CredentialStore`]. Time is always handed in by the caller, as seconds
//! since the Unix epoch.

use crate::bindings::clock::{timestamp_lower_bound, timestamp_upper_bound, utc_now_seconds};
use crate::error::{AppResult, Error, ErrorView};
use crate::grpc::transport::{Authorization, AuthorizationView, Code, Status, StatusView};
use crate::models::player::{
    EnhancedLoginResponse, LoginRequest, PasswordChangeRequest, Player, PlayerView, RefreshRequest,
    RefreshResponse,
};
use crate::services::credential_store::{
    account_with_credentials, account_with_id, after_login, after_password_update, found_view,
    CredentialStore,
};
use crate::services::password_hasher::{password_digest, PasswordHasher};
use crate::services::token_codec::{
    decoded_claims, signed_token, verified_claims, ClaimsView, CodecError, TokenCodec,
};
use crate::services::token_policy::{
    allows, bearer_operation, lifetime_hours, Operation, TokenPolicy,
};
use vstd::prelude::*;

pub use crate::services::token_codec::Claims;
pub use crate::services::token_policy::TokenType;

verus! {

/// `true` where a token issued at `now` for `hours` hours has an expiry that
/// fits the 64 bits of a time.
pub open spec fn expiry_fits(now: i64, hours: int) -> bool {
    i64::MIN <= now + hours * 3600 <= i64::MAX
}

/// The claims of a token issued to `player` at `now` for `hours` hours.
pub open spec fn issued_claims(
    player: PlayerView,
    token_type: TokenType,
    hours: int,
    now: i64,
) -> ClaimsView {
    ClaimsView {
        sub: player.uuid,
        username: player.username,
        token_type,
        exp: (now + hours * 3600) as i64,
        iat: now,
    }
}

/// `true` where `token` is the token that `secret` gives for the claims of a
/// token issued to `player` at `now` for `hours` hours, and decodes under
/// `secret` to these claims.
pub open spec fn is_issued(
    token: Seq<char>,
    secret: Seq<char>,
    player: PlayerView,
    token_type: TokenType,
    hours: int,
    now: i64,
) -> bool {
    &&& expiry_fits(now, hours)
    &&& token == signed_token(issued_claims(player, token_type, hours, now), secret)
    &&& decoded_claims(token, secret) == Ok::<ClaimsView, CodecError>(
        issued_claims(player, token_type, hours, now),
    )
}

/// [`is_issued`] with the lifetime that belongs to the token type: 24 hours
/// for access, 168 for refresh, 1 for a password-change token.
pub open spec fn is_standard(
    token: Seq<char>,
    secret: Seq<char>,
    player: PlayerView,
    token_type: TokenType,
    now: i64,
) -> bool {
    is_issued(token, secret, player, token_type, lifetime_hours(token_type), now)
}

/// The error for a token whose expiry does not fit a time.
pub open spec fn expiry_out_of_range() -> ErrorView {
    ErrorView::InternalError("Failed to generate JWT token: expiry out of range"@)
}

/// What issuing a token to `player` at `now` for `hours` hours gives: the
/// token where the expiry fits, else the error that says it does not.
pub open spec fn token_issued(
    secret: Seq<char>,
    player: PlayerView,
    token_type: TokenType,
    hours: int,
    now: i64,
    result: AppResult<String>,
) -> bool {
    if expiry_fits(now, hours) {
        result matches Ok(token) && is_issued(token@, secret, player, token_type, hours, now)
    } else {
        result matches Err(error) && error@ == expiry_out_of_range()
    }
}

/// What signing gave, as a flow reports it.
pub open spec fn signing_outcome(signed: Result<String, String>, result: AppResult<String>) -> bool {
    match signed {
        Ok(token) => result matches Ok(reported) && reported@ == token@,
        Err(text) => result matches Err(error) && error@ == ErrorView::InternalError(
            "Failed to generate JWT token: "@ + text@,
        ),
    }
}

/// What login gives once the store has answered with `found`.
///
/// Without an account the credentials are wrong. An account that must change
/// its password gets a password-change token and no refresh token; any other
/// account gets an access token and a refresh token. The one failure left is
/// a time so late that the expiry of a token does not fit.
pub open spec fn login_issued(
    secret: Seq<char>,
    found: Option<PlayerView>,
    now: i64,
    result: AppResult<EnhancedLoginResponse>,
) -> bool {
    match found {
        None => result matches Err(error) && error@ == ErrorView::WrongCredentials,
        Some(player) => if player.password_change_required {
            if expiry_fits(now, 1) {
                &&& result matches Ok(response)
                &&& is_standard(
                    response.access_token@,
                    secret,
                    player,
                    TokenType::PasswordChangeOnly,
                    now,
                )
                &&& response.refresh_token is None
            } else {
                result matches Err(error) && error@ == expiry_out_of_range()
            }
        } else {
            if expiry_fits(now, 168) {
                &&& result matches Ok(response)
                &&& response.refresh_token matches Some(refresh)
                &&& is_fresh_pair(secret, player, now, response.access_token@, refresh@)
            } else {
                result matches Err(error) && error@ == expiry_out_of_range()
            }
        },
    }
}

/// What [`PlayerService::login_user`] does to the store and returns.
pub open spec fn login_post(
    secret: Seq<char>,
    before: Seq<PlayerView>,
    after: Seq<PlayerView>,
    username: Seq<char>,
    password: Seq<char>,
    now: i64,
    result: AppResult<EnhancedLoginResponse>,
) -> bool {
    let found = account_with_credentials(before, username, password_digest(password));
    &&& login_issued(secret, found, now, result)
    &&& match result {
        Ok(_) => found is Some && after == after_login(before, found->0.uuid, now),
        Err(_) => after == before,
    }
}

/// `true` where the token was issued before the invalidation cutoff of the
/// account it is for. A token for an account that is not there is not stale.
pub open spec fn is_stale(claims: ClaimsView, account: Option<PlayerView>) -> bool {
    account matches Some(player) && player.tokens_invalidated_before matches Some(cutoff)
        && claims.iat < cutoff
}

/// The claims of a token that is valid at `now`: verified under the secret
/// and not issued before the cutoff of its account.
pub open spec fn validated_claims(
    secret: Seq<char>,
    accounts: Seq<PlayerView>,
    token: Seq<char>,
    now: i64,
) -> Option<ClaimsView> {
    match verified_claims(token, secret, now) {
        Ok(claims) => if is_stale(claims, account_with_id(accounts, claims.sub)) {
            None
        } else {
            Some(claims)
        },
        Err(_) => None,
    }
}

/// The claims of a token that is valid at `now` and whose type may authorize
/// the operation: a refresh token never, a password-change token only where
/// `allow_password_change` is set.
pub open spec fn admitted_claims(
    secret: Seq<char>,
    accounts: Seq<PlayerView>,
    token: Seq<char>,
    allow_password_change: bool,
    now: i64,
) -> Option<ClaimsView> {
    match validated_claims(secret, accounts, token, now) {
        Some(claims) => if allows(bearer_operation(allow_password_change), claims.token_type) {
            Some(claims)
        } else {
            None
        },
        None => None,
    }
}

/// `true` where `result` is the expected claims, or `Unauthorized` where none
/// are expected.
pub open spec fn is_claims_or_unauthorized(
    result: AppResult<Claims>,
    expected: Option<ClaimsView>,
) -> bool {
    match expected {
        Some(claims) => result matches Ok(given) && given@ == claims,
        None => result matches Err(error) && error@ == ErrorView::Unauthorized,
    }
}

/// A status with the code `Unauthenticated`.
pub open spec fn unauthenticated(message: Seq<char>) -> StatusView {
    StatusView { code: Code::Unauthenticated, message }
}

/// The token that an authorization header bears: the text behind
/// `"Bearer "`, or the status for a header that is missing, unreadable or of
/// another shape.
pub open spec fn bearer_token(authorization: AuthorizationView) -> Result<Seq<char>, StatusView> {
    match authorization {
        AuthorizationView::Missing => Err(unauthenticated("Missing authorization header"@)),
        AuthorizationView::Unreadable => Err(
            unauthenticated("Invalid authorization header format"@),
        ),
        AuthorizationView::Text(text) => if text.len() >= 7 && text.subrange(0, 7) == "Bearer "@ {
            Ok(text.subrange(7, text.len() as int))
        } else {
            Err(
                unauthenticated(
                    "Invalid authorization header format - Bearer token expected"@,
                ),
            )
        },
    }
}

/// What a call is told about its validated token: the claims, or the status
/// that says why not. A refresh token is never accepted; a password-change
/// token is accepted only where `allow_password_change` is set. Every refusal
/// leaves the caller unauthenticated; the text says which it was.
pub open spec fn bearer_verdict(
    validated: Option<ClaimsView>,
    allow_password_change: bool,
) -> Result<ClaimsView, StatusView> {
    match validated {
        None => Err(unauthenticated("Invalid or expired token"@)),
        Some(claims) => if claims.token_type == TokenType::Refresh {
            Err(unauthenticated("Refresh tokens cannot be used for password changes"@))
        } else if !allow_password_change && claims.token_type == TokenType::PasswordChangeOnly {
            Err(
                unauthenticated(
                    "Password change tokens cannot be used for authentication"@,
                ),
            )
        } else {
            Ok(claims)
        },
    }
}

/// What a call with this authorization header is told.
pub open spec fn request_verdict(
    secret: Seq<char>,
    accounts: Seq<PlayerView>,
    authorization: AuthorizationView,
    allow_password_change: bool,
    now: i64,
) -> Result<ClaimsView, StatusView> {
    match bearer_token(authorization) {
        Ok(token) => bearer_verdict(
            validated_claims(secret, accounts, token, now),
            allow_password_change,
        ),
        Err(status) => Err(status),
    }
}

/// `true` where `result` is `expected`, claims and status taken by their
/// views.
pub open spec fn is_verdict(
    result: Result<Claims, Status>,
    expected: Result<ClaimsView, StatusView>,
) -> bool {
    match expected {
        Ok(claims) => result matches Ok(given) && given@ == claims,
        Err(status) => result matches Err(given) && given@ == status,
    }
}

/// `true` where both tokens were issued to `player` at `now`, the first as an
/// access token and the second as a refresh token.
pub open spec fn is_fresh_pair(
    secret: Seq<char>,
    player: PlayerView,
    now: i64,
    access: Seq<char>,
    refresh: Seq<char>,
) -> bool {
    &&& is_standard(access, secret, player, TokenType::Access, now)
    &&& is_standard(refresh, secret, player, TokenType::Refresh, now)
}

/// What refresh gives for validated `claims` once the store has answered
/// with `account`.
///
/// Only a refresh token may refresh. The account must be there and must not
/// be under the demand to change its password; it then gets a fresh pair.
pub open spec fn refresh_issued(
    secret: Seq<char>,
    claims: ClaimsView,
    account: Option<PlayerView>,
    now: i64,
    result: AppResult<RefreshResponse>,
) -> bool {
    if !allows(Operation::Refresh, claims.token_type) {
        result matches Err(error) && error@ == ErrorView::Unauthorized
    } else {
        match account {
            None => result matches Err(error) && error@ == ErrorView::NotFound,
            Some(player) => if player.password_change_required {
                result matches Err(error) && error@ == ErrorView::CustomValidationError(
                    "Password change required. Please change your password to continue."@,
                )
            } else if expiry_fits(now, 168) {
                &&& result matches Ok(response)
                &&& is_fresh_pair(
                    secret,
                    player,
                    now,
                    response.access_token@,
                    response.refresh_token@,
                )
            } else {
                result matches Err(error) && error@ == expiry_out_of_range()
            },
        }
    }
}

/// What [`PlayerService::refresh_user`] returns.
pub open spec fn refresh_post(
    secret: Seq<char>,
    accounts: Seq<PlayerView>,
    token: Seq<char>,
    now: i64,
    result: AppResult<RefreshResponse>,
) -> bool {
    match validated_claims(secret, accounts, token, now) {
        None => result matches Err(error) && error@ == ErrorView::Unauthorized,
        Some(claims) => refresh_issued(
            secret,
            claims,
            account_with_id(accounts, claims.sub),
            now,
            result,
        ),
    }
}

/// The least number of characters of a password.
pub open spec fn min_password_chars() -> nat {
    8
}

/// What a new password gives before the store is asked: its digest, or the
/// validation error for a password under eight characters.
pub open spec fn new_password_checked(password: Seq<char>, result: AppResult<String>) -> bool {
    if password.len() < min_password_chars() {
        result matches Err(error) && error@ == ErrorView::CustomValidationError(
            "Password must be at least 8 characters long"@,
        )
    } else {
        result matches Ok(digest) && digest@ == password_digest(password)
    }
}

/// What password change gives once the store has stored the digest for
/// `player` and reported `affected` rows: an internal error for zero rows,
/// else a fresh pair, unless the time is so late that an expiry does not
/// fit.
pub open spec fn password_change_issued(
    secret: Seq<char>,
    player: PlayerView,
    affected: u64,
    now: i64,
    result: AppResult<EnhancedLoginResponse>,
) -> bool {
    if affected == 0 {
        result matches Err(error) && error@ == ErrorView::InternalError(
            "Failed to update password"@,
        )
    } else if expiry_fits(now, 168) {
        &&& result matches Ok(response)
        &&& response.refresh_token matches Some(refresh)
        &&& is_fresh_pair(secret, player, now, response.access_token@, refresh@)
    } else {
        result matches Err(error) && error@ == expiry_out_of_range()
    }
}

/// What [`PlayerService::change_password`] does to the store and returns.
///
/// A password under eight characters is refused before the store is asked.
/// Without the account nothing is stored. Otherwise the digest of the new
/// password is stored and the demand to change the password is cleared.
pub open spec fn change_password_post(
    secret: Seq<char>,
    before: Seq<PlayerView>,
    after: Seq<PlayerView>,
    id: u128,
    password: Seq<char>,
    now: i64,
    result: AppResult<EnhancedLoginResponse>,
) -> bool {
    if password.len() < min_password_chars() {
        &&& after == before
        &&& result matches Err(error) && error@ == ErrorView::CustomValidationError(
            "Password must be at least 8 characters long"@,
        )
    } else {
        match account_with_id(before, id) {
            None => {
                &&& after == before
                &&& result matches Err(error) && error@ == ErrorView::NotFound
            },
            Some(player) => {
                &&& after == after_password_update(before, id, password_digest(password), now)
                &&& password_change_issued(secret, player, 1, now, result)
            },
        }
    }
}

/// The flows of player authentication. A service holds the secret under
/// which it signs and verifies tokens, and nothing else.
pub struct PlayerService {
    secret: String,
}

impl PlayerService {
    /// The signing secret.
    pub closed spec fn secret(&self) -> Seq<char> {
        self.secret@
    }

    /// A service that signs and verifies under `secret`.
    pub fn new(secret: String) -> (service: Self)
        ensures
            service.secret() == secret@,
    {
        Self { secret }
    }

    /// The wall clock in seconds since the Unix epoch, for the `now` of the
    /// flows. Which time comes back is the clock's business; it always lies
    /// between the two bounds of the clock, and so a token of any type issued
    /// at it has an expiry that fits.
    pub fn current_timestamp() -> (now: i64)
        ensures
            timestamp_lower_bound() <= now <= timestamp_upper_bound(),
            forall|token_type: TokenType| #[trigger]
                expiry_fits(now, lifetime_hours(token_type)),
    {
        utc_now_seconds()
    }

    /// Reports a result of the shape that signing has: the token, or an
    /// internal error with the signer's text.
    pub fn token_or_failure(signed: Result<String, String>) -> (result: AppResult<String>)
        ensures
            signing_outcome(signed, result),
    {
        match signed {
            Ok(token) => Ok(token),
            Err(text) => Err(
                Error::InternalError(
                    String::from_str("Failed to generate JWT token: ").concat(text.as_str()),
                ),
            ),
        }
    }

    /// Issues a token of type `token_type` to `player` at the time `now`,
    /// valid for `duration_hours` hours. It succeeds exactly where the expiry
    /// fits a time, and fails with an internal error where it does not.
    pub fn generate_jwt_token(
        &self,
        player: &Player,
        token_type: TokenType,
        duration_hours: i64,
        now: i64,
    ) -> (result: AppResult<String>)
        ensures
            token_issued(
                self.secret(),
                player@,
                token_type,
                duration_hours as int,
                now,
                result,
            ),
            result is Ok <==> expiry_fits(now, duration_hours as int),
    {
        let wide: i128 = now as i128 + duration_hours as i128 * 3600;
        if wide < i64::MIN as i128 || wide > i64::MAX as i128 {
            return Err(
                Error::InternalError(
                    String::from_str("Failed to generate JWT token: expiry out of range"),
                ),
            );
        }
        let exp: i64 = wide as i64;
        let claims = Claims {
            sub: player.uuid,
            username: player.username.clone(),
            token_type,
            exp,
            iat: now,
        };
        assert(claims@ == issued_claims(player@, token_type, duration_hours as int, now));
        let signed = TokenCodec::sign(&claims, self.secret.as_str());
        Self::token_or_failure(signed)
    }

    /// Issues a token with the lifetime that belongs to its type.
    fn issue(&self, player: &Player, token_type: TokenType, now: i64) -> (result: AppResult<
        String,
    >)
        ensures
            token_issued(
                self.secret(),
                player@,
                token_type,
                lifetime_hours(token_type),
                now,
                result,
            ),
    {
        self.generate_jwt_token(player, token_type, TokenPolicy::lifetime_hours(token_type), now)
    }

    /// Decides a login once the store has answered the lookup by username and
    /// digest with `found`. After a success the caller records the login of
    /// the account that was found.
    pub fn issue_login(&self, found: &Option<Player>, now: i64) -> (result: AppResult<
        EnhancedLoginResponse,
    >)
        ensures
            login_issued(self.secret(), found_view(*found), now, result),
    {
        match found {
            None => Err(Error::WrongCredentials),
            Some(player) => {
                if player.password_change_required {
                    let access_token = match self.issue(player, TokenType::PasswordChangeOnly, now) {
                        Ok(token) => token,
                        Err(error) => { return Err(error); },
                    };
                    Ok(EnhancedLoginResponse { access_token, refresh_token: None })
                } else {
                    let access_token = match self.issue(player, TokenType::Access, now) {
                        Ok(token) => token,
                        Err(error) => { return Err(error); },
                    };
                    let refresh_token = match self.issue(player, TokenType::Refresh, now) {
                        Ok(token) => token,
                        Err(error) => { return Err(error); },
                    };
                    Ok(EnhancedLoginResponse { access_token, refresh_token: Some(refresh_token) })
                }
            },
        }
    }

    /// Logs a player in at the time `now`: digests the password, looks the
    /// account up by username and digest, issues what the account may have,
    /// and records the login. A failed login leaves the store as it was.
    pub fn login_user(&self, store: &mut CredentialStore, request: LoginRequest, now: i64) -> (result:
        AppResult<EnhancedLoginResponse>)
        ensures
            login_post(
                self.secret(),
                old(store)@,
                final(store)@,
                request.username@,
                request.password@,
                now,
                result,
            ),
    {
        let digest = PasswordHasher::hash(request.password.as_str());
        let found = store.find_by_username_and_digest(request.username.as_str(), digest.as_str());
        let response = match self.issue_login(&found, now) {
            Ok(response) => response,
            Err(error) => { return Err(error); },
        };
        match found {
            Some(player) => {
                store.touch_last_login(player.uuid, now);
            },
            None => {},
        }
        Ok(response)
    }

    /// Verifies `token` under the service's secret at the time `now`. Every
    /// failure of verification is reported as `Unauthorized`.
    pub fn verify_token(&self, token: &str, now: i64) -> (result: AppResult<Claims>)
        ensures
            is_claims_or_unauthorized(
                result,
                match verified_claims(token@, self.secret(), now) {
                    Ok(claims) => Some(claims),
                    Err(_) => None,
                },
            ),
    {
        match TokenCodec::verify(token, self.secret.as_str(), now) {
            Ok(claims) => Ok(claims),
            Err(_) => Err(Error::Unauthorized),
        }
    }

    /// Holds verified claims against the account they are for, as the store
    /// has it now: claims issued before the account's cutoff are refused.
    pub fn check_cutoff(claims: Claims, account: &Option<Player>) -> (result: AppResult<Claims>)
        ensures
            is_claims_or_unauthorized(
                result,
                if is_stale(claims@, found_view(*account)) {
                    None
                } else {
                    Some(claims@)
                },
            ),
    {
        match account {
            Some(player) => match player.tokens_invalidated_before {
                Some(cutoff) => if claims.iat < cutoff {
                    Err(Error::Unauthorized)
                } else {
                    Ok(claims)
                },
                None => Ok(claims),
            },
            None => Ok(claims),
        }
    }

    /// Validates `token` at the time `now`: verification under the secret,
    /// then one lookup of the account for its invalidation cutoff.
    pub fn validate_token(&self, store: &CredentialStore, token: &str, now: i64) -> (result:
        AppResult<Claims>)
        ensures
            is_claims_or_unauthorized(
                result,
                validated_claims(self.secret(), store@, token@, now),
            ),
    {
        let claims = match self.verify_token(token, now) {
            Ok(claims) => claims,
            Err(error) => { return Err(error); },
        };
        let account = store.find_by_id(claims.sub);
        Self::check_cutoff(claims, &account)
    }

    /// Holds claims against the policy for a bearer token.
    pub fn check_operation(claims: Claims, allow_password_change: bool) -> (result: AppResult<
        Claims,
    >)
        ensures
            is_claims_or_unauthorized(
                result,
                if allows(bearer_operation(allow_password_change), claims@.token_type) {
                    Some(claims@)
                } else {
                    None
                },
            ),
    {
        if TokenPolicy::allows(
            TokenPolicy::bearer_operation(allow_password_change),
            claims.token_type,
        ) {
            Ok(claims)
        } else {
            Err(Error::Unauthorized)
        }
    }

    /// Verifies a bearer token for an operation at the time `now`: the token
    /// must verify, its type must be allowed for the operation, and it must
    /// not be older than the cutoff of its account.
    pub fn verify_for_operation(
        &self,
        store: &CredentialStore,
        token: &str,
        allow_password_change: bool,
        now: i64,
    ) -> (result: AppResult<Claims>)
        ensures
            is_claims_or_unauthorized(
                result,
                admitted_claims(self.secret(), store@, token@, allow_password_change, now),
            ),
    {
        let verified = match self.verify_token(token, now) {
            Ok(claims) => claims,
            Err(error) => { return Err(error); },
        };
        let allowed = match Self::check_operation(verified, allow_password_change) {
            Ok(claims) => claims,
            Err(error) => { return Err(error); },
        };
        let account = store.find_by_id(allowed.sub);
        Self::check_cutoff(allowed, &account)
    }

    /// The token that an authorization header bears.
    pub fn bearer_token(authorization: &Authorization) -> (result: Result<String, Status>)
        ensures
            match bearer_token(authorization@) {
                Ok(token) => result matches Ok(given) && given@ == token,
                Err(status) => result matches Err(given) && given@ == status,
            },
    {
        match authorization {
            Authorization::Missing => Err(
                Status::unauthenticated(String::from_str("Missing authorization header")),
            ),
            Authorization::Unreadable => Err(
                Status::unauthenticated(String::from_str("Invalid authorization header format")),
            ),
            Authorization::Text(text) => {
                let header = text.as_str();
                let length = header.unicode_len();
                proof {
                    reveal_strlit("Bearer ");
                }
                if length >= 7 && String::from_str(header.substring_char(0, 7)) == String::from_str(
                    "Bearer ",
                ) {
                    Ok(String::from_str(header.substring_char(7, length)))
                } else {
                    Err(
                        Status::unauthenticated(
                            String::from_str(
                                "Invalid authorization header format - Bearer token expected",
                            ),
                        ),
                    )
                }
            },
        }
    }

    /// Tells a call what its validated token is worth.
    pub fn bearer_verdict(validated: AppResult<Claims>, allow_password_change: bool) -> (result:
        Result<Claims, Status>)
        ensures
            is_verdict(
                result,
                bearer_verdict(
                    match validated {
                        Ok(claims) => Some(claims@),
                        Err(_) => None,
                    },
                    allow_password_change,
                ),
            ),
    {
        match validated {
            Err(_) => Err(Status::unauthenticated(String::from_str("Invalid or expired token"))),
            Ok(claims) => match claims.token_type {
                TokenType::Refresh => Err(
                    Status::unauthenticated(
                        String::from_str("Refresh tokens cannot be used for password changes"),
                    ),
                ),
                TokenType::PasswordChangeOnly => if allow_password_change {
                    Ok(claims)
                } else {
                    Err(
                        Status::unauthenticated(
                            String::from_str(
                                "Password change tokens cannot be used for authentication",
                            ),
                        ),
                    )
                },
                TokenType::Access => Ok(claims),
            },
        }
    }

    /// Authenticates a call by its authorization header at the time `now`,
    /// for the operations that a password-change token may authorize too.
    pub fn verify_request_allow_password_change(
        &self,
        store: &CredentialStore,
        authorization: &Authorization,
        now: i64,
    ) -> (result: Result<Claims, Status>)
        ensures
            is_verdict(result, request_verdict(self.secret(), store@, authorization@, true, now)),
    {
        let token = match Self::bearer_token(authorization) {
            Ok(token) => token,
            Err(status) => { return Err(status); },
        };
        let validated = self.validate_token(store, token.as_str(), now);
        Self::bearer_verdict(validated, true)
    }

    /// Authenticates a call by its authorization header at the time `now`,
    /// for the operations that need an access token.
    pub fn verify_request(
        &self,
        store: &CredentialStore,
        authorization: &Authorization,
        now: i64,
    ) -> (result: Result<Claims, Status>)
        ensures
            is_verdict(result, request_verdict(self.secret(), store@, authorization@, false, now)),
    {
        let token = match Self::bearer_token(authorization) {
            Ok(token) => token,
            Err(status) => { return Err(status); },
        };
        let validated = self.validate_token(store, token.as_str(), now);
        Self::bearer_verdict(validated, false)
    }

    /// The account with the identifier `uuid`.
    pub fn get_player_by_uuid(&self, store: &CredentialStore, uuid: u128) -> (result: AppResult<
        Option<Player>,
    >)
        ensures
            result matches Ok(found) && found_view(found) == account_with_id(store@, uuid),
    {
        Ok(store.find_by_id(uuid))
    }

    /// Issues an access token and a refresh token to `player`.
    fn issue_pair(&self, player: &Player, now: i64) -> (result: AppResult<(String, String)>)
        ensures
            expiry_fits(now, 168) ==> (result matches Ok(pair) && is_fresh_pair(
                self.secret(),
                player@,
                now,
                pair.0@,
                pair.1@,
            )),
            !expiry_fits(now, 168) ==> (result matches Err(error) && error@
                == expiry_out_of_range()),
    {
        let access_token = match self.issue(player, TokenType::Access, now) {
            Ok(token) => token,
            Err(error) => { return Err(error); },
        };
        let refresh_token = match self.issue(player, TokenType::Refresh, now) {
            Ok(token) => token,
            Err(error) => { return Err(error); },
        };
        Ok((access_token, refresh_token))
    }

    /// Decides a refresh for validated `claims` once the store has answered
    /// the lookup of their account with `account`.
    pub fn issue_refresh(&self, claims: &Claims, account: &Option<Player>, now: i64) -> (result:
        AppResult<RefreshResponse>)
        ensures
            refresh_issued(self.secret(), claims@, found_view(*account), now, result),
    {
        if !TokenPolicy::allows(Operation::Refresh, claims.token_type) {
            return Err(Error::Unauthorized);
        }
        match account {
            None => Err(Error::NotFound),
            Some(player) => {
                if player.password_change_required {
                    return Err(
                        Error::CustomValidationError(
                            String::from_str(
                                "Password change required. Please change your password to continue.",
                            ),
                        ),
                    );
                }
                match self.issue_pair(player, now) {
                    Ok(pair) => Ok(RefreshResponse { access_token: pair.0, refresh_token: pair.1 }),
                    Err(error) => Err(error),
                }
            },
        }
    }

    /// Trades a refresh token for a fresh pair at the time `now`. The token
    /// that was traded in stays valid until it expires.
    pub fn refresh_user(&self, store: &CredentialStore, request: RefreshRequest, now: i64) -> (result:
        AppResult<RefreshResponse>)
        ensures
            refresh_post(self.secret(), store@, request.refresh_token@, now, result),
    {
        let claims = match self.validate_token(store, request.refresh_token.as_str(), now) {
            Ok(claims) => claims,
            Err(error) => { return Err(error); },
        };
        let account = store.find_by_id(claims.sub);
        self.issue_refresh(&claims, &account, now)
    }

    /// Checks a new password and digests it. Nothing is stored.
    pub fn new_password_digest(request: &PasswordChangeRequest) -> (result: AppResult<String>)
        ensures
            new_password_checked(request.new_password@, result),
    {
        if request.new_password.as_str().unicode_len() < 8 {
            return Err(
                Error::CustomValidationError(
                    String::from_str("Password must be at least 8 characters long"),
                ),
            );
        }
        Ok(PasswordHasher::hash(request.new_password.as_str()))
    }

    /// Decides a password change once the store has stored the new digest
    /// for `player` and reported `affected` rows.
    pub fn issue_after_password_change(&self, player: &Player, affected: u64, now: i64) -> (result:
        AppResult<EnhancedLoginResponse>)
        ensures
            password_change_issued(self.secret(), player@, affected, now, result),
    {
        if affected == 0 {
            return Err(Error::InternalError(String::from_str("Failed to update password")));
        }
        match self.issue_pair(player, now) {
            Ok(pair) => Ok(
                EnhancedLoginResponse { access_token: pair.0, refresh_token: Some(pair.1) },
            ),
            Err(error) => Err(error),
        }
    }

    /// Replaces the password of the account `player_uuid` at the time `now`.
    /// The identifier comes from claims that were verified for the operation
    /// of changing the password.
    pub fn change_password(
        &self,
        store: &mut CredentialStore,
        player_uuid: u128,
        request: PasswordChangeRequest,
        now: i64,
    ) -> (result: AppResult<EnhancedLoginResponse>)
        ensures
            change_password_post(
                self.secret(),
                old(store)@,
                final(store)@,
                player_uuid,
                request.new_password@,
                now,
                result,
            ),
    {
        let digest = match Self::new_password_digest(&request) {
            Ok(digest) => digest,
            Err(error) => { return Err(error); },
        };
        let player = match store.find_by_id(player_uuid) {
            Some(player) => player,
            None => { return Err(Error::NotFound); },
        };
        let affected = store.update_password_digest(player_uuid, digest.as_str(), now);
        self.issue_after_password_change(&player, affected, now)
    }
}

} // verus!
