//! What the flows guarantee, proved from their contracts.

use crate::error::{AppResult, ErrorView};
use crate::models::player::{EnhancedLoginResponse, PlayerView, RefreshResponse};
use crate::services::credential_store::{
    account_with_credentials, account_with_id, after_login, after_password_update,
    lemma_password_update_credentials, lemma_password_update_found, place_of_id, same_username,
    with_password_digest,
};
use crate::services::password_hasher::password_digest;
use crate::grpc::transport::{AuthorizationView, Code};
use crate::services::player_service::{
    admitted_claims, bearer_token, bearer_verdict, change_password_post, expiry_fits,
    login_post, min_password_chars, refresh_post, request_verdict, validated_claims,
};
use crate::services::token_codec::{decoded_claims, ClaimsView, CodecError};
use crate::services::token_policy::{allows, bearer_operation, Operation, TokenType};
use vstd::prelude::*;

verus! {

/// `true` where `token` decodes under `secret` to claims for the account
/// `id`, of type `token_type`, that expire exactly `hours` hours after they
/// were issued.
pub open spec fn decodes_to(
    token: Seq<char>,
    secret: Seq<char>,
    id: u128,
    token_type: TokenType,
    hours: int,
) -> bool {
    decoded_claims(token, secret) matches Ok(claims) && claims.sub == id && claims.token_type
        == token_type && claims.exp - claims.iat == hours * 3600
}

/// `true` where `response` holds an access token and a refresh token for the
/// account `id`, valid for exactly 24 and 168 hours.
pub open spec fn is_full_bundle(
    response: EnhancedLoginResponse,
    secret: Seq<char>,
    id: u128,
) -> bool {
    &&& decodes_to(response.access_token@, secret, id, TokenType::Access, 24)
    &&& response.refresh_token matches Some(refresh)
    &&& decodes_to(refresh@, secret, id, TokenType::Refresh, 168)
}

/// A password-change token authorizes the change of the password and no
/// other operation; a refresh token authorizes refresh and no other
/// operation, so it is never accepted in place of an access token.
pub proof fn lemma_restricted_types(operation: Operation)
    ensures
        allows(operation, TokenType::PasswordChangeOnly) <==> operation
            == Operation::ChangePassword,
        allows(operation, TokenType::Refresh) <==> operation == Operation::Refresh,
{
}

/// A call is told the claims of its validated token exactly where the table
/// allows the token's type for the operation: an access token always, a
/// password-change token only for changing the password, a refresh token
/// never. Every refusal is told as unauthenticated.
pub proof fn lemma_bearer_verdict_follows_table(
    validated: Option<ClaimsView>,
    allow_password_change: bool,
)
    ensures
        match bearer_verdict(validated, allow_password_change) {
            Ok(claims) => validated == Some(claims) && allows(
                bearer_operation(allow_password_change),
                claims.token_type,
            ),
            Err(status) => status.code == Code::Unauthenticated && !(validated matches Some(
                claims,
            ) && allows(bearer_operation(allow_password_change), claims.token_type)),
        },
{
}

/// A call that is refused for its authorization header is told so as
/// unauthenticated, whatever the reason: no header, another scheme, a token
/// that is forged, expired, stale or of a type that the operation does not
/// allow.
pub proof fn lemma_refused_request_is_unauthenticated(
    secret: Seq<char>,
    accounts: Seq<PlayerView>,
    authorization: AuthorizationView,
    allow_password_change: bool,
    now: i64,
)
    ensures
        request_verdict(secret, accounts, authorization, allow_password_change, now) matches Err(
            status,
        ) ==> status.code == Code::Unauthenticated,
{
    match bearer_token(authorization) {
        Ok(token) => {
            lemma_bearer_verdict_follows_table(
                validated_claims(secret, accounts, token, now),
                allow_password_change,
            );
        },
        Err(_) => {},
    }
}

/// Login with the credentials of an account that need not change its
/// password succeeds: it returns an access token and a refresh token that
/// both decode to the account's identifier and expire exactly 24 and 168
/// hours after issuance, and it records the login. The time must be one at
/// which the later expiry fits.
pub proof fn lemma_login_full(
    secret: Seq<char>,
    before: Seq<PlayerView>,
    after: Seq<PlayerView>,
    username: Seq<char>,
    password: Seq<char>,
    now: i64,
    result: AppResult<EnhancedLoginResponse>,
    player: PlayerView,
)
    requires
        account_with_credentials(before, username, password_digest(password)) == Some(player),
        !player.password_change_required,
        expiry_fits(now, 168),
        login_post(secret, before, after, username, password, now, result),
    ensures
        result matches Ok(response) && is_full_bundle(response, secret, player.uuid),
        after == after_login(before, player.uuid, now),
{
}

/// Login with the credentials of an account that must change its password
/// succeeds: it returns a password-change token, valid for exactly one hour,
/// and no refresh token. No operation that does not allow password-change
/// tokens accepts that token, whatever the store holds and whatever the
/// time. The time of the login must be one at which the expiry fits.
pub proof fn lemma_login_restricted(
    secret: Seq<char>,
    before: Seq<PlayerView>,
    after: Seq<PlayerView>,
    username: Seq<char>,
    password: Seq<char>,
    now: i64,
    result: AppResult<EnhancedLoginResponse>,
    player: PlayerView,
    later_accounts: Seq<PlayerView>,
    later: i64,
)
    requires
        account_with_credentials(before, username, password_digest(password)) == Some(player),
        player.password_change_required,
        expiry_fits(now, 1),
        login_post(secret, before, after, username, password, now, result),
    ensures
        result matches Ok(response) && response.refresh_token is None && decodes_to(
            response.access_token@,
            secret,
            player.uuid,
            TokenType::PasswordChangeOnly,
            1,
        ) && admitted_claims(secret, later_accounts, response.access_token@, false, later)
            is None,
        after == after_login(before, player.uuid, now),
{
}

/// Refresh fails as unauthorized for a token whose type is not `Refresh`,
/// that is for an access token and for a password-change token, whatever the
/// store holds and whatever the time.
pub proof fn lemma_refresh_needs_refresh_token(
    secret: Seq<char>,
    accounts: Seq<PlayerView>,
    token: Seq<char>,
    now: i64,
    result: AppResult<RefreshResponse>,
    claims: ClaimsView,
)
    requires
        decoded_claims(token, secret) == Ok::<ClaimsView, CodecError>(claims),
        claims.token_type == TokenType::Access || claims.token_type
            == TokenType::PasswordChangeOnly,
        refresh_post(secret, accounts, token, now, result),
    ensures
        result matches Err(error) && error@ == ErrorView::Unauthorized,
{
}

/// Refresh with a valid refresh token of an account that is there and need
/// not change its password succeeds: it returns a fresh access token and a
/// fresh refresh token for the account, valid for exactly 24 and 168 hours.
/// The time must be one at which the later expiry fits.
pub proof fn lemma_refresh_succeeds(
    secret: Seq<char>,
    accounts: Seq<PlayerView>,
    token: Seq<char>,
    now: i64,
    result: AppResult<RefreshResponse>,
    claims: ClaimsView,
    player: PlayerView,
)
    requires
        validated_claims(secret, accounts, token, now) == Some(claims),
        claims.token_type == TokenType::Refresh,
        account_with_id(accounts, claims.sub) == Some(player),
        !player.password_change_required,
        expiry_fits(now, 168),
        refresh_post(secret, accounts, token, now, result),
    ensures
        result matches Ok(response) && decodes_to(
            response.access_token@,
            secret,
            player.uuid,
            TokenType::Access,
            24,
        ) && decodes_to(response.refresh_token@, secret, player.uuid, TokenType::Refresh, 168),
{
}

/// A token that was issued before the invalidation cutoff of its account is
/// not valid, and is admitted for no operation, at any time: also before its
/// expiry.
pub proof fn lemma_stale_token_rejected(
    secret: Seq<char>,
    accounts: Seq<PlayerView>,
    token: Seq<char>,
    now: i64,
    allow_password_change: bool,
    claims: ClaimsView,
    player: PlayerView,
    cutoff: i64,
)
    requires
        decoded_claims(token, secret) == Ok::<ClaimsView, CodecError>(claims),
        account_with_id(accounts, claims.sub) == Some(player),
        player.tokens_invalidated_before == Some(cutoff),
        claims.iat < cutoff,
    ensures
        validated_claims(secret, accounts, token, now) is None,
        admitted_claims(secret, accounts, token, allow_password_change, now) is None,
{
}

/// A password change with a new password under eight characters fails with
/// the validation error and leaves every account, and so every stored
/// digest, as it was.
pub proof fn lemma_short_password_changes_nothing(
    secret: Seq<char>,
    before: Seq<PlayerView>,
    after: Seq<PlayerView>,
    id: u128,
    password: Seq<char>,
    now: i64,
    result: AppResult<EnhancedLoginResponse>,
)
    requires
        password.len() < min_password_chars(),
        change_password_post(secret, before, after, id, password, now, result),
    ensures
        after == before,
        result matches Err(error) && error@ == ErrorView::CustomValidationError(
            "Password must be at least 8 characters long"@,
        ),
{
}

/// A password change with a new password of eight characters or more, for
/// an account that is there, succeeds: it returns a fresh access token and a
/// fresh refresh token for the account, and the account is then found with
/// the digest of the new password and without the demand to change it. The
/// time must be one at which the later expiry fits.
pub proof fn lemma_password_change_succeeds(
    secret: Seq<char>,
    before: Seq<PlayerView>,
    after: Seq<PlayerView>,
    id: u128,
    password: Seq<char>,
    now: i64,
    result: AppResult<EnhancedLoginResponse>,
    player: PlayerView,
)
    requires
        password.len() >= min_password_chars(),
        account_with_id(before, id) == Some(player),
        expiry_fits(now, 168),
        change_password_post(secret, before, after, id, password, now, result),
    ensures
        result matches Ok(response) && is_full_bundle(response, secret, player.uuid),
        after == after_password_update(before, id, password_digest(password), now),
        account_with_id(after, id) == Some(
            with_password_digest(player, password_digest(password), now),
        ),
{
    lemma_password_update_found(before, id, password_digest(password), now, player);
}

/// After a password change, a login with the username of the account and the
/// new password succeeds with an access token and a refresh token for that
/// account: the restricted token is a thing of the past. No other account may
/// have the username, and the time of the login must be one at which the
/// later expiry fits.
pub proof fn lemma_login_after_password_change(
    secret: Seq<char>,
    before: Seq<PlayerView>,
    changed: Seq<PlayerView>,
    after: Seq<PlayerView>,
    id: u128,
    password: Seq<char>,
    change_time: i64,
    change_result: AppResult<EnhancedLoginResponse>,
    login_time: i64,
    login_result: AppResult<EnhancedLoginResponse>,
    player: PlayerView,
)
    requires
        password.len() >= min_password_chars(),
        account_with_id(before, id) == Some(player),
        forall|j: int|
            0 <= j < before.len() && place_of_id(before, id) != Some(j) ==> !same_username(
                (#[trigger] before[j]).username,
                player.username,
            ),
        change_password_post(secret, before, changed, id, password, change_time, change_result),
        expiry_fits(login_time, 168),
        login_post(secret, changed, after, player.username, password, login_time, login_result),
    ensures
        login_result matches Ok(response) && is_full_bundle(response, secret, id),
{
    lemma_password_update_credentials(
        before,
        id,
        password_digest(password),
        change_time,
        player,
    );
    lemma_password_update_found(before, id, password_digest(password), change_time, player);
}

/// A login with credentials that no account has fails as wrong credentials
/// and leaves the store as it was.
pub proof fn lemma_wrong_credentials_change_nothing(
    secret: Seq<char>,
    before: Seq<PlayerView>,
    after: Seq<PlayerView>,
    username: Seq<char>,
    password: Seq<char>,
    now: i64,
    result: AppResult<EnhancedLoginResponse>,
)
    requires
        account_with_credentials(before, username, password_digest(password)) is None,
        login_post(secret, before, after, username, password, now, result),
    ensures
        after == before,
        result matches Err(error) && error@ == ErrorView::WrongCredentials,
{
}

} // verus!
