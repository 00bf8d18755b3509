//! Stored records, as the logic reads them: identifiers are UUID values
//! (`u128`), instants are Unix microseconds (`i64`).
use vstd::prelude::*;

verus! {

/// A user account.
#[derive(Debug)]
pub struct User {
    pub id: u128,
    pub username: String,
    pub password: String,
    pub role: u128,
    pub display_name: Option<String>,
    pub color: Option<String>,
    pub avatar_updated_at: Option<i64>,
    pub date_created: i64,
    pub deleted_at: Option<i64>,
}

impl User {
    /// Whether the account has been soft-deleted.
    pub fn is_deleted(&self) -> (r: bool)
        ensures
            r == self.deleted_at is Some,
    {
        self.deleted_at.is_some()
    }
}

/// A password-reset request, stored under the hash of its token.
#[derive(Debug)]
pub struct PasswordReset {
    pub token_hash: String,
    pub user_id: u128,
    pub expires_at: i64,
    pub used_at: Option<i64>,
}

/// A registered OAuth client application.
#[derive(Debug)]
pub struct OAuthClient {
    pub id: u128,
    pub secret_hash: String,
    pub name: String,
    pub base_url: Option<String>,
    pub notifications_enabled: bool,
    pub created_at: i64,
}

/// A stored notification.
#[derive(Debug)]
pub struct Notification {
    pub id: u128,
    pub recipient_id: u128,
    pub client_id: u128,
    pub text: String,
    pub target_path: String,
    pub idempotency_key: String,
    pub created_at: i64,
    pub read_at: Option<i64>,
    pub expires_at: i64,
}

/// A notification together with the application that sent it.
#[derive(Debug)]
pub struct NotificationWithApp {
    pub id: u128,
    pub client_id: u128,
    pub app_name: String,
    pub base_url: String,
    pub text: String,
    pub target_path: String,
    pub created_at: i64,
    pub read_at: Option<i64>,
    pub expires_at: i64,
}

/// A user's notification preference for one application.
#[derive(Debug)]
pub struct NotificationPreferenceWithApp {
    pub client_id: u128,
    pub app_name: String,
    pub enabled: bool,
}

/// An authorization code issued by the consent step.
#[derive(Debug)]
pub struct OAuthAuthorizationCode {
    pub code: String,
    pub client_id: u128,
    pub user_id: u128,
    pub redirect_uri: String,
    pub scopes: String,
    pub expires_at: i64,
    pub used_at: Option<i64>,
}

/// An access or refresh token, stored under its hash.
#[derive(Debug)]
pub struct OAuthToken {
    pub token_hash: String,
    pub client_id: u128,
    pub user_id: u128,
    pub kind: String,
    pub scopes: String,
    pub expires_at: i64,
    pub created_at: i64,
}

/// An invitation code issued by a user.
#[derive(Debug)]
pub struct Invite {
    pub id: u128,
    pub code: String,
    pub issuer_id: u128,
    pub recipient_id: Option<u128>,
    pub created_at: i64,
}

/// The outcome of a storage read: the row, no row, or a storage failure.
#[derive(Debug)]
pub enum Lookup<T> {
    Found(T),
    Missing,
    Failed,
}

} // verus!
