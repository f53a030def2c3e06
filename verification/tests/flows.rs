use backend::error::Error;
use backend::grpc::{Authorization, Code};
use backend::models::{
    EnhancedLoginResponse, LoginRequest, PasswordChangeRequest, Player, RefreshRequest,
};
use backend::services::token_codec::TokenCodec;
use backend::services::token_policy::TokenType;
use backend::services::{CredentialStore, PasswordHasher, PlayerService};

const SECRET: &str = "test-signing-secret";
const ALICE: u128 = 0x0000_0000_0000_0000_0000_0000_0000_00a1;
const BOB: u128 = 0x0000_0000_0000_0000_0000_0000_0000_00b0;
const T0: i64 = 1_700_000_000;
const HOUR: i64 = 3_600;

fn player(uuid: u128, username: &str, password: &str, must_change: bool) -> Player {
    Player {
        uuid,
        username: username.to_string(),
        password_hash: Some(PasswordHasher::hash(password)),
        password_change_required: must_change,
        tokens_invalidated_before: None,
        created_at: 1,
        updated_at: 1,
        last_login: None,
    }
}

fn service() -> PlayerService {
    PlayerService::new(SECRET.to_string())
}

fn store() -> CredentialStore {
    let mut store = CredentialStore::new();
    assert!(store.insert(player(ALICE, "alice", "wonderland", false)));
    assert!(store.insert(player(BOB, "bob", "temporary", true)));
    store
}

fn login(username: &str, password: &str) -> LoginRequest {
    LoginRequest { username: username.to_string(), password: password.to_string() }
}

fn bearer(token: &str) -> Authorization {
    Authorization::Text(format!("Bearer {}", token))
}

fn alice_tokens(store: &mut CredentialStore, now: i64) -> EnhancedLoginResponse {
    service().login_user(store, login("alice", "wonderland"), now).unwrap()
}

#[test]
fn alice_logs_in_and_gets_both_tokens() {
    let mut store = store();
    let bundle = service().login_user(&mut store, login("alice", "wonderland"), T0).unwrap();
    let access = TokenCodec::verify(&bundle.access_token, SECRET, T0).unwrap();
    assert_eq!(access.token_type, TokenType::Access);
    assert_eq!(access.sub, ALICE);
    assert_eq!(access.username, "alice");
    assert!(bundle.refresh_token.is_some());
}

#[test]
fn login_lifetimes_are_24_and_168_hours() {
    let mut store = store();
    let bundle = alice_tokens(&mut store, T0);
    let access = TokenCodec::verify(&bundle.access_token, SECRET, T0).unwrap();
    assert_eq!(access.iat, T0);
    assert_eq!(access.exp, T0 + 86_400);
    let refresh = TokenCodec::verify(&bundle.refresh_token.unwrap(), SECRET, T0).unwrap();
    assert_eq!(refresh.token_type, TokenType::Refresh);
    assert_eq!(refresh.sub, ALICE);
    assert_eq!(refresh.iat, T0);
    assert_eq!(refresh.exp, T0 + 604_800);
}

#[test]
fn login_records_the_login() {
    let mut store = store();
    alice_tokens(&mut store, T0);
    let alice = store.find_by_id(ALICE).unwrap();
    assert_eq!(alice.last_login, Some(T0));
    assert_eq!(alice.updated_at, T0);
    assert_eq!(store.find_by_id(BOB).unwrap().last_login, None);
}

#[test]
fn login_matches_the_username_without_regard_to_case() {
    let mut store = store();
    let bundle = service().login_user(&mut store, login("ALICE", "wonderland"), T0).unwrap();
    assert_eq!(TokenCodec::verify(&bundle.access_token, SECRET, T0).unwrap().sub, ALICE);
}

#[test]
fn bob_logs_in_and_gets_a_password_change_token_only() {
    let mut store = store();
    let bundle = service().login_user(&mut store, login("bob", "temporary"), T0).unwrap();
    assert!(bundle.refresh_token.is_none());
    let claims = TokenCodec::verify(&bundle.access_token, SECRET, T0).unwrap();
    assert_eq!(claims.token_type, TokenType::PasswordChangeOnly);
    assert_eq!(claims.sub, BOB);
    assert_eq!(claims.exp - claims.iat, 3600);
    assert_eq!(store.find_by_id(BOB).unwrap().last_login, Some(T0));
}

#[test]
fn password_change_token_is_rejected_where_not_allowed() {
    let mut store = store();
    let bundle = service().login_user(&mut store, login("bob", "temporary"), T0).unwrap();
    let refused = service().verify_for_operation(&store, &bundle.access_token, false, T0 + 1);
    assert!(matches!(refused, Err(Error::Unauthorized)));
    let admitted = service().verify_for_operation(&store, &bundle.access_token, true, T0 + 1);
    assert_eq!(admitted.unwrap().sub, BOB);
    let status = service().verify_request(&store, &bearer(&bundle.access_token), T0).unwrap_err();
    assert_eq!(status.code, Code::Unauthenticated);
    assert_eq!(status.message, "Password change tokens cannot be used for authentication");
}

#[test]
fn alice_with_a_wrong_password() {
    let mut store = store();
    let result = service().login_user(&mut store, login("alice", "looking-glass"), T0);
    assert!(matches!(result, Err(Error::WrongCredentials)));
    let alice = store.find_by_id(ALICE).unwrap();
    assert_eq!(alice.last_login, None);
    assert_eq!(alice.updated_at, 1);
    assert_eq!(alice.password_hash, Some(PasswordHasher::hash("wonderland")));
}

#[test]
fn unknown_username_is_wrong_credentials() {
    let mut store = store();
    let result = service().login_user(&mut store, login("carol", "wonderland"), T0);
    assert!(matches!(result, Err(Error::WrongCredentials)));
}

#[test]
fn issue_login_without_an_account() {
    assert!(matches!(service().issue_login(&None, T0), Err(Error::WrongCredentials)));
}

#[test]
fn bob_changes_his_password_and_logs_in_in_full() {
    let mut store = store();
    let service = service();
    let restricted = service.login_user(&mut store, login("bob", "temporary"), T0).unwrap();
    let claims = service
        .verify_request_allow_password_change(&store, &bearer(&restricted.access_token), T0 + 5)
        .unwrap();
    assert_eq!(claims.token_type, TokenType::PasswordChangeOnly);
    let request = PasswordChangeRequest { new_password: "newpass123".to_string() };
    let changed = service.change_password(&mut store, claims.sub, request, T0 + 10).unwrap();
    let access = TokenCodec::verify(&changed.access_token, SECRET, T0 + 10).unwrap();
    assert_eq!(access.token_type, TokenType::Access);
    assert_eq!(access.sub, BOB);
    assert_eq!(access.exp, T0 + 10 + 24 * HOUR);
    let refresh = TokenCodec::verify(&changed.refresh_token.unwrap(), SECRET, T0 + 10).unwrap();
    assert_eq!(refresh.token_type, TokenType::Refresh);
    assert_eq!(refresh.exp, T0 + 10 + 168 * HOUR);

    let bob = store.find_by_id(BOB).unwrap();
    assert!(!bob.password_change_required);
    assert_eq!(
        bob.password_hash.as_deref(),
        Some("8bf729f5f3e2ba07cb421f6046e008ef4958665133b14fded2c7271c4664525f")
    );
    assert_eq!(bob.updated_at, T0 + 10);

    let old = service.login_user(&mut store, login("bob", "temporary"), T0 + 20);
    assert!(matches!(old, Err(Error::WrongCredentials)));
    let full = service.login_user(&mut store, login("bob", "newpass123"), T0 + 20).unwrap();
    assert!(full.refresh_token.is_some());
    let claims = TokenCodec::verify(&full.access_token, SECRET, T0 + 20).unwrap();
    assert_eq!(claims.token_type, TokenType::Access);
    assert_eq!(claims.sub, BOB);
}

#[test]
fn access_token_issued_before_the_cutoff_is_rejected() {
    let mut store = store();
    let service = service();
    let bundle = alice_tokens(&mut store, T0);
    assert!(service.verify_for_operation(&store, &bundle.access_token, false, T0 + 60).is_ok());
    assert_eq!(store.invalidate_tokens_before(ALICE, T0 + 30), 1);
    let stale = service.verify_for_operation(&store, &bundle.access_token, false, T0 + 60);
    assert!(matches!(stale, Err(Error::Unauthorized)));
    assert!(TokenCodec::verify(&bundle.access_token, SECRET, T0 + 60).is_ok());
    let stale = service.validate_token(&store, &bundle.access_token, T0 + 60);
    assert!(matches!(stale, Err(Error::Unauthorized)));
    let status =
        service.verify_request(&store, &bearer(&bundle.access_token), T0 + 60).unwrap_err();
    assert_eq!(status.code, Code::Unauthenticated);
    assert_eq!(status.message, "Invalid or expired token");
}

#[test]
fn token_issued_at_the_cutoff_is_accepted() {
    let mut store = store();
    let bundle = alice_tokens(&mut store, T0);
    store.invalidate_tokens_before(ALICE, T0);
    assert!(service().validate_token(&store, &bundle.access_token, T0 + 1).is_ok());
    store.invalidate_tokens_before(ALICE, T0 + 1);
    assert!(service().validate_token(&store, &bundle.access_token, T0 + 1).is_err());
    let later = alice_tokens(&mut store, T0 + 1);
    assert!(service().validate_token(&store, &later.access_token, T0 + 2).is_ok());
}

#[test]
fn token_of_a_vanished_account_is_still_valid() {
    let mut store = store();
    let bundle = alice_tokens(&mut store, T0);
    let empty = CredentialStore::new();
    let claims = service().validate_token(&empty, &bundle.access_token, T0 + 1).unwrap();
    assert_eq!(claims.sub, ALICE);
}

#[test]
fn validate_token_rejects_expired_and_forged_tokens() {
    let mut store = store();
    let bundle = alice_tokens(&mut store, T0);
    let service = service();
    assert!(service.validate_token(&store, &bundle.access_token, T0 + 24 * HOUR - 1).is_ok());
    let expired = service.validate_token(&store, &bundle.access_token, T0 + 24 * HOUR);
    assert!(matches!(expired, Err(Error::Unauthorized)));
    let other = PlayerService::new("another-secret".to_string());
    let forged = other.validate_token(&store, &bundle.access_token, T0 + 1);
    assert!(matches!(forged, Err(Error::Unauthorized)));
    assert!(matches!(service.validate_token(&store, "garbage", T0), Err(Error::Unauthorized)));
    assert!(matches!(service.verify_token("garbage", T0), Err(Error::Unauthorized)));
}

#[test]
fn refresh_token_is_never_a_bearer_token() {
    let mut store = store();
    let bundle = alice_tokens(&mut store, T0);
    let refresh = bundle.refresh_token.unwrap();
    let service = service();
    for allow in [false, true] {
        let refused = service.verify_for_operation(&store, &refresh, allow, T0 + 1);
        assert!(matches!(refused, Err(Error::Unauthorized)));
    }
    let status = service
        .verify_request_allow_password_change(&store, &bearer(&refresh), T0 + 1)
        .unwrap_err();
    assert_eq!(status.code, Code::Unauthenticated);
    assert_eq!(status.message, "Refresh tokens cannot be used for password changes");
    let status = service.verify_request(&store, &bearer(&refresh), T0 + 1).unwrap_err();
    assert_eq!(status.code, Code::Unauthenticated);
    assert_eq!(status.message, "Refresh tokens cannot be used for password changes");
}

#[test]
fn refresh_returns_a_fresh_pair() {
    let mut store = store();
    let bundle = alice_tokens(&mut store, T0);
    let request = RefreshRequest { refresh_token: bundle.refresh_token.clone().unwrap() };
    let fresh = service().refresh_user(&store, request, T0 + 100).unwrap();
    let access = TokenCodec::verify(&fresh.access_token, SECRET, T0 + 100).unwrap();
    assert_eq!(access.token_type, TokenType::Access);
    assert_eq!(access.sub, ALICE);
    assert_eq!(access.iat, T0 + 100);
    assert_eq!(access.exp, T0 + 100 + 24 * HOUR);
    let refresh = TokenCodec::verify(&fresh.refresh_token, SECRET, T0 + 100).unwrap();
    assert_eq!(refresh.token_type, TokenType::Refresh);
    assert_eq!(refresh.exp, T0 + 100 + 168 * HOUR);
    let again = RefreshRequest { refresh_token: bundle.refresh_token.unwrap() };
    assert!(service().refresh_user(&store, again, T0 + 200).is_ok());
}

#[test]
fn refresh_fails_with_an_access_token() {
    let mut store = store();
    let bundle = alice_tokens(&mut store, T0);
    let request = RefreshRequest { refresh_token: bundle.access_token };
    let result = service().refresh_user(&store, request, T0 + 1);
    assert!(matches!(result, Err(Error::Unauthorized)));
}

#[test]
fn refresh_fails_with_a_password_change_token() {
    let mut store = store();
    let bundle = service().login_user(&mut store, login("bob", "temporary"), T0).unwrap();
    let request = RefreshRequest { refresh_token: bundle.access_token };
    let result = service().refresh_user(&store, request, T0 + 1);
    assert!(matches!(result, Err(Error::Unauthorized)));
}

#[test]
fn refresh_fails_for_a_vanished_account() {
    let mut store = store();
    let bundle = alice_tokens(&mut store, T0);
    let request = RefreshRequest { refresh_token: bundle.refresh_token.unwrap() };
    let result = service().refresh_user(&CredentialStore::new(), request, T0 + 1);
    assert!(matches!(result, Err(Error::NotFound)));
}

#[test]
fn refresh_is_blocked_while_the_password_must_change() {
    let mut store = CredentialStore::new();
    store.insert(player(ALICE, "alice", "wonderland", false));
    let bundle = alice_tokens(&mut store, T0);
    let mut flagged = CredentialStore::new();
    flagged.insert(player(ALICE, "alice", "wonderland", true));
    let request = RefreshRequest { refresh_token: bundle.refresh_token.unwrap() };
    match service().refresh_user(&flagged, request, T0 + 1) {
        Err(Error::CustomValidationError(text)) => assert_eq!(
            text,
            "Password change required. Please change your password to continue."
        ),
        other => panic!("unexpected: {:?}", other),
    }
}

#[test]
fn refresh_fails_after_the_cutoff_and_after_the_expiry() {
    let mut store = store();
    let bundle = alice_tokens(&mut store, T0);
    let token = bundle.refresh_token.unwrap();
    let late = RefreshRequest { refresh_token: token.clone() };
    let result = service().refresh_user(&store, late, T0 + 168 * HOUR);
    assert!(matches!(result, Err(Error::Unauthorized)));
    store.invalidate_tokens_before(ALICE, T0 + 1);
    let stale = RefreshRequest { refresh_token: token };
    assert!(matches!(service().refresh_user(&store, stale, T0 + 2), Err(Error::Unauthorized)));
}

#[test]
fn short_password_is_refused_and_nothing_is_stored() {
    let mut store = store();
    let request = PasswordChangeRequest { new_password: "seven77".to_string() };
    match service().change_password(&mut store, ALICE, request, T0) {
        Err(Error::CustomValidationError(text)) => {
            assert_eq!(text, "Password must be at least 8 characters long")
        }
        other => panic!("unexpected: {:?}", other),
    }
    let alice = store.find_by_id(ALICE).unwrap();
    assert_eq!(alice.password_hash, Some(PasswordHasher::hash("wonderland")));
    assert_eq!(alice.updated_at, 1);
}

#[test]
fn short_password_is_refused_before_the_account_is_looked_up() {
    let mut store = store();
    let request = PasswordChangeRequest { new_password: String::new() };
    let result = service().change_password(&mut store, 0xdead, request, T0);
    assert!(matches!(result, Err(Error::CustomValidationError(_))));
}

#[test]
fn password_of_eight_characters_is_accepted() {
    let mut store = store();
    let request = PasswordChangeRequest { new_password: "eight888".to_string() };
    let changed = service().change_password(&mut store, ALICE, request, T0).unwrap();
    assert!(changed.refresh_token.is_some());
    assert_eq!(
        store.find_by_id(ALICE).unwrap().password_hash,
        Some(PasswordHasher::hash("eight888"))
    );
}

#[test]
fn password_length_counts_characters() {
    let seven = PasswordChangeRequest { new_password: "äöüäöüä".to_string() };
    assert!(matches!(
        PlayerService::new_password_digest(&seven),
        Err(Error::CustomValidationError(_))
    ));
    let eight = PasswordChangeRequest { new_password: "äöüäöüäö".to_string() };
    assert_eq!(
        PlayerService::new_password_digest(&eight).unwrap(),
        PasswordHasher::hash("äöüäöüäö")
    );
}

#[test]
fn change_password_of_a_missing_account() {
    let mut store = store();
    let request = PasswordChangeRequest { new_password: "long-enough".to_string() };
    let result = service().change_password(&mut store, 0xdead, request, T0);
    assert!(matches!(result, Err(Error::NotFound)));
    assert_eq!(
        store.find_by_id(ALICE).unwrap().password_hash,
        Some(PasswordHasher::hash("wonderland"))
    );
}

#[test]
fn zero_rows_affected_is_an_internal_error() {
    let alice = player(ALICE, "alice", "wonderland", false);
    match service().issue_after_password_change(&alice, 0, T0) {
        Err(Error::InternalError(text)) => assert_eq!(text, "Failed to update password"),
        other => panic!("unexpected: {:?}", other),
    }
    assert!(service().issue_after_password_change(&alice, 1, T0).is_ok());
}

#[test]
fn generate_jwt_token_with_a_given_lifetime() {
    let alice = player(ALICE, "alice", "wonderland", false);
    let token = service().generate_jwt_token(&alice, TokenType::Access, 2, T0).unwrap();
    let claims = TokenCodec::verify(&token, SECRET, T0).unwrap();
    assert_eq!(claims.sub, ALICE);
    assert_eq!(claims.username, "alice");
    assert_eq!(claims.token_type, TokenType::Access);
    assert_eq!(claims.iat, T0);
    assert_eq!(claims.exp, T0 + 7_200);
}

#[test]
fn generate_jwt_token_succeeds_exactly_where_the_expiry_fits() {
    let alice = player(ALICE, "alice", "wonderland", false);
    let latest = i64::MAX - 24 * HOUR;
    let token = service().generate_jwt_token(&alice, TokenType::Access, 24, latest).unwrap();
    assert_eq!(TokenCodec::decode(&token, SECRET).unwrap().exp, i64::MAX);
    assert!(service().generate_jwt_token(&alice, TokenType::Access, 24, latest + 1).is_err());
    let token = service().generate_jwt_token(&alice, TokenType::Access, -1, i64::MIN + HOUR);
    assert_eq!(TokenCodec::decode(&token.unwrap(), SECRET).unwrap().exp, i64::MIN);
    assert!(service().generate_jwt_token(&alice, TokenType::Access, -1, i64::MIN).is_err());
    let wide = i64::MAX / 3_600 + 1;
    let token = service().generate_jwt_token(&alice, TokenType::Access, wide, -4_000).unwrap();
    assert_eq!(
        TokenCodec::decode(&token, SECRET).unwrap().exp as i128,
        wide as i128 * 3_600 - 4_000
    );
}

#[test]
fn generate_jwt_token_with_an_expiry_out_of_range() {
    let alice = player(ALICE, "alice", "wonderland", false);
    match service().generate_jwt_token(&alice, TokenType::Access, 24, i64::MAX) {
        Err(Error::InternalError(text)) => {
            assert_eq!(text, "Failed to generate JWT token: expiry out of range")
        }
        other => panic!("unexpected: {:?}", other),
    }
    let result = service().generate_jwt_token(&alice, TokenType::Access, i64::MAX, 0);
    assert!(matches!(result, Err(Error::InternalError(_))));
    let mut store = store();
    let result = service().login_user(&mut store, login("alice", "wonderland"), i64::MAX);
    assert!(matches!(result, Err(Error::InternalError(_))));
    assert_eq!(store.find_by_id(ALICE).unwrap().last_login, None);
}

#[test]
fn token_or_failure_reports_the_signer() {
    assert_eq!(PlayerService::token_or_failure(Ok("abc".to_string())).unwrap(), "abc");
    match PlayerService::token_or_failure(Err("boom".to_string())) {
        Err(Error::InternalError(text)) => {
            assert_eq!(text, "Failed to generate JWT token: boom")
        }
        other => panic!("unexpected: {:?}", other),
    }
}

#[test]
fn get_player_by_uuid_finds_the_account() {
    let store = store();
    assert_eq!(service().get_player_by_uuid(&store, BOB).unwrap().unwrap().username, "bob");
    assert!(service().get_player_by_uuid(&store, 0xdead).unwrap().is_none());
}

#[test]
fn current_timestamp_is_in_this_century() {
    let now = PlayerService::current_timestamp();
    assert!(now > 1_600_000_000);
    assert!(now < 4_102_444_800);
}

#[test]
fn tokens_issued_at_the_current_time_fit() {
    let now = PlayerService::current_timestamp();
    let mut store = store();
    let bundle = service().login_user(&mut store, login("alice", "wonderland"), now).unwrap();
    let refresh = TokenCodec::verify(&bundle.refresh_token.unwrap(), SECRET, now).unwrap();
    assert_eq!(refresh.iat, now);
    assert_eq!(refresh.exp, now + 168 * HOUR);
}

#[test]
fn tokens_of_another_service_are_not_trusted() {
    let mut store = store();
    let other = PlayerService::new("another-secret".to_string());
    let bundle = other.login_user(&mut store, login("alice", "wonderland"), T0).unwrap();
    let result = service().verify_for_operation(&store, &bundle.access_token, false, T0);
    assert!(matches!(result, Err(Error::Unauthorized)));
}
