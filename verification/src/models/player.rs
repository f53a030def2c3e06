//! The account record and the requests and responses of the three flows.

use vstd::prelude::*;

verus! {

/// A player account as the store holds it. Identifiers are held as the
/// 128-bit value of the UUID, times as seconds since the Unix epoch.
#[derive(Debug)]
pub struct Player {
    pub uuid: u128,
    pub username: String,
    /// The digest of the password; `None` for an account without one, which
    /// no password matches.
    pub password_hash: Option<String>,
    /// While set, login hands out a restricted token only and refresh is
    /// blocked.
    pub password_change_required: bool,
    /// Tokens issued before this time are rejected, whatever their expiry.
    pub tokens_invalidated_before: Option<i64>,
    pub created_at: i64,
    pub updated_at: i64,
    pub last_login: Option<i64>,
}

/// A [`Player`] with its texts as sequences of characters.
pub struct PlayerView {
    pub uuid: u128,
    pub username: Seq<char>,
    pub password_hash: Option<Seq<char>>,
    pub password_change_required: bool,
    pub tokens_invalidated_before: Option<i64>,
    pub created_at: i64,
    pub updated_at: i64,
    pub last_login: Option<i64>,
}

impl View for Player {
    type V = PlayerView;

    open spec fn view(&self) -> PlayerView {
        PlayerView {
            uuid: self.uuid,
            username: self.username@,
            password_hash: match self.password_hash {
                Some(digest) => Some(digest@),
                None => None,
            },
            password_change_required: self.password_change_required,
            tokens_invalidated_before: self.tokens_invalidated_before,
            created_at: self.created_at,
            updated_at: self.updated_at,
            last_login: self.last_login,
        }
    }
}

impl Clone for Player {
    fn clone(&self) -> (copy: Self)
        ensures
            copy@ == self@,
    {
        Player {
            uuid: self.uuid,
            username: self.username.clone(),
            password_hash: match &self.password_hash {
                Some(digest) => Some(digest.clone()),
                None => None,
            },
            password_change_required: self.password_change_required,
            tokens_invalidated_before: self.tokens_invalidated_before,
            created_at: self.created_at,
            updated_at: self.updated_at,
            last_login: self.last_login,
        }
    }
}

/// A username and a plaintext password.
#[derive(Debug, Clone)]
pub struct LoginRequest {
    pub username: String,
    pub password: String,
}

/// The new plaintext password.
#[derive(Debug, Clone)]
pub struct PasswordChangeRequest {
    pub new_password: String,
}

/// What login and password change hand back: an access token and, unless the
/// access token is restricted to changing the password, a refresh token.
#[derive(Debug, Clone)]
pub struct EnhancedLoginResponse {
    pub access_token: String,
    pub refresh_token: Option<String>,
}

/// The refresh token that is traded in.
#[derive(Debug, Clone)]
pub struct RefreshRequest {
    pub refresh_token: String,
}

/// What refresh hands back: a fresh pair.
#[derive(Debug, Clone)]
pub struct RefreshResponse {
    pub access_token: String,
    pub refresh_token: String,
}

} // verus!
