use backend::services::token_policy::{Operation, TokenPolicy, TokenType};

#[test]
fn access_token_row() {
    assert!(TokenPolicy::allows(Operation::Authenticated, TokenType::Access));
    assert!(TokenPolicy::allows(Operation::ChangePassword, TokenType::Access));
    assert!(!TokenPolicy::allows(Operation::Refresh, TokenType::Access));
}

#[test]
fn password_change_token_row() {
    assert!(!TokenPolicy::allows(Operation::Authenticated, TokenType::PasswordChangeOnly));
    assert!(TokenPolicy::allows(Operation::ChangePassword, TokenType::PasswordChangeOnly));
    assert!(!TokenPolicy::allows(Operation::Refresh, TokenType::PasswordChangeOnly));
}

#[test]
fn refresh_token_row() {
    assert!(!TokenPolicy::allows(Operation::Authenticated, TokenType::Refresh));
    assert!(!TokenPolicy::allows(Operation::ChangePassword, TokenType::Refresh));
    assert!(TokenPolicy::allows(Operation::Refresh, TokenType::Refresh));
}

#[test]
fn lifetimes_by_type() {
    assert_eq!(TokenPolicy::lifetime_hours(TokenType::PasswordChangeOnly), 1);
    assert_eq!(TokenPolicy::lifetime_hours(TokenType::Access), 24);
    assert_eq!(TokenPolicy::lifetime_hours(TokenType::Refresh), 168);
}

#[test]
fn operation_of_a_bearer_token() {
    assert_eq!(TokenPolicy::bearer_operation(true), Operation::ChangePassword);
    assert_eq!(TokenPolicy::bearer_operation(false), Operation::Authenticated);
}
