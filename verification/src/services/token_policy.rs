//! The decision table that says which kind of token may authorize which
//! operation. Every check of a token's type in this crate goes through it.

use vstd::prelude::*;

verus! {

/// The kind of a signed token. It determines which operations the token may
/// authorize.
#[derive(Debug, Clone, Copy, PartialEq, Eq, Structural)]
pub enum TokenType {
    /// A normal authenticated session.
    Access,
    /// Restricted: good for changing the password and nothing else.
    PasswordChangeOnly,
    /// Good for obtaining a fresh pair of tokens and nothing else.
    Refresh,
}

/// An operation that a caller attempts with a bearer token.
#[derive(Debug, Clone, Copy, PartialEq, Eq, Structural)]
pub enum Operation {
    /// Any call that needs an authenticated player.
    Authenticated,
    /// The call that replaces the password.
    ChangePassword,
    /// The call that trades a refresh token for a fresh pair.
    Refresh,
}

/// The table itself: `true` where a token of type `token_type` may authorize
/// `operation`.
pub open spec fn allows(operation: Operation, token_type: TokenType) -> bool {
    match operation {
        Operation::Authenticated => token_type == TokenType::Access,
        Operation::ChangePassword => token_type == TokenType::Access || token_type
            == TokenType::PasswordChangeOnly,
        Operation::Refresh => token_type == TokenType::Refresh,
    }
}

/// The operation that a bearer token is checked for: changing the password
/// where `allow_password_change` is set, any authenticated call where not.
pub open spec fn bearer_operation(allow_password_change: bool) -> Operation {
    if allow_password_change {
        Operation::ChangePassword
    } else {
        Operation::Authenticated
    }
}

/// The hours for which a token of type `token_type` is valid.
pub open spec fn lifetime_hours(token_type: TokenType) -> int {
    match token_type {
        TokenType::Access => 24,
        TokenType::PasswordChangeOnly => 1,
        TokenType::Refresh => 168,
    }
}

/// The stateless policy component.
pub struct TokenPolicy;

impl TokenPolicy {
    /// The hours for which a token of type `token_type` is valid.
    pub fn lifetime_hours(token_type: TokenType) -> (hours: i64)
        ensures
            hours == lifetime_hours(token_type),
    {
        match token_type {
            TokenType::Access => 24,
            TokenType::PasswordChangeOnly => 1,
            TokenType::Refresh => 168,
        }
    }

    /// The operation that a bearer token is checked for.
    pub fn bearer_operation(allow_password_change: bool) -> (operation: Operation)
        ensures
            operation == bearer_operation(allow_password_change),
    {
        if allow_password_change {
            Operation::ChangePassword
        } else {
            Operation::Authenticated
        }
    }

    /// Looks `operation` and `token_type` up in the table.
    pub fn allows(operation: Operation, token_type: TokenType) -> (allowed: bool)
        ensures
            allowed == allows(operation, token_type),
    {
        match operation {
            Operation::Authenticated => match token_type {
                TokenType::Access => true,
                TokenType::PasswordChangeOnly => false,
                TokenType::Refresh => false,
            },
            Operation::ChangePassword => match token_type {
                TokenType::Access => true,
                TokenType::PasswordChangeOnly => true,
                TokenType::Refresh => false,
            },
            Operation::Refresh => match token_type {
                TokenType::Access => false,
                TokenType::PasswordChangeOnly => false,
                TokenType::Refresh => true,
            },
        }
    }
}

} // verus!
