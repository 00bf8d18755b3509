//! The account security page: password confirmation, reset links,
//! account deletion, revoking applications and invitations.
use vstd::prelude::*;
use crate::codec::{parse_uuid_str, uuid_parse, uuid_text, uuid_to_text, new_uuid_v4};
use crate::crypto::{
    argon2_verify, argon2_verify_result, hex_encode, is_lower_hex,
    lemma_hex_lower_is_lower_hex, random_bytes, sha256_hex,
};
use crate::error::AppError;
use crate::models::{Invite, User};
use crate::oauth::token::{now_micros, MAX_CLOCK_MICROS, MICROS_PER_SEC};
use crate::rbac::{id_for_name_spec, RoleCache};
use crate::routes::auth::hash_input;
use crate::routes::avatar::{avatar_path, avatar_path_spec};
use crate::text::{from_chars, push_chars, push_str, sub_chars, to_chars, trim, trim_end_char, trim_end_char_chars};

verus! {

/// The form that asks for a reset link for one's own account.
#[derive(Debug)]
pub struct ResetForm {
    pub password: String,
}

/// The form that deletes one's own account.
#[derive(Debug)]
pub struct DeleteAccountForm {
    pub password: String,
}

/// The form that revokes an application's access.
#[derive(Debug)]
pub struct RevokeClientForm {
    pub client_id: String,
}

/// How long a reset link stays valid, in seconds.
pub const RESET_TTL_SECS: i64 = 3600;

/// Checks the password a signed-in user typed to confirm an action.
pub fn confirm_password(user: &User, password: &str) -> (r: Result<(), &'static str>)
    ensures
        argon2_verify_result(password@, user.password@) == Some(true) ==> r is Ok,
        argon2_verify_result(password@, user.password@) != Some(true)
            ==> (r matches Err(m) && m@ == "Incorrect password."@),
{
    match argon2_verify(password, user.password.as_str()) {
        Some(true) => Ok(()),
        _ => Err("Incorrect password."),
    }
}

/// The link of a password reset: the base URL without trailing slashes,
/// then `/auth/reset?token=` and the token.
pub open spec fn reset_url_spec(base_url: Seq<char>, token: Seq<char>) -> Seq<char> {
    trim_end_char(base_url, '/') + "/auth/reset?token="@ + token
}

/// A password reset to store and the link to hand out.
#[derive(Debug)]
pub struct IssuedReset {
    pub token: String,
    /// What the reset is stored under: the hash the reset form looks up.
    pub token_hash: String,
    /// Unix microseconds.
    pub expires_at: i64,
    pub url: String,
}

/// Issues a reset at time `now` (Unix microseconds): a fresh token of 64
/// lowercase hex digits, stored under the hash that the reset form
/// computes from it, valid for an hour.
pub fn issue_password_reset_at(base_url: &str, now: i64) -> (r: IssuedReset)
    requires
        0 <= now < MAX_CLOCK_MICROS,
    ensures
        r.token@.len() == 64,
        is_lower_hex(r.token@),
        r.token_hash@ == sha256_hex(trim(r.token@)),
        r.expires_at == now + RESET_TTL_SECS * MICROS_PER_SEC,
        r.url@ == reset_url_spec(base_url@, r.token@),
{
    let raw = random_bytes(32);
    proof {
        lemma_hex_lower_is_lower_hex(raw@);
    }
    let token = hex_encode(&raw);
    let token_hash = hash_input(token.as_str());
    let base = trim_end_char_chars(&to_chars(base_url), '/');
    let mut url = from_chars(&base);
    push_str(&mut url, "/auth/reset?token=");
    push_str(&mut url, token.as_str());
    IssuedReset { token, token_hash, expires_at: now + RESET_TTL_SECS * MICROS_PER_SEC, url }
}

/// Issues a reset now, by the clock.
pub fn issue_password_reset(base_url: &str) -> (r: IssuedReset)
    ensures
        r.token@.len() == 64,
        is_lower_hex(r.token@),
        r.token_hash@ == sha256_hex(trim(r.token@)),
        RESET_TTL_SECS * MICROS_PER_SEC <= r.expires_at < MAX_CLOCK_MICROS + RESET_TTL_SECS * MICROS_PER_SEC,
        r.url@ == reset_url_spec(base_url@, r.token@),
{
    let now = now_micros();
    issue_password_reset_at(base_url, now)
}

/// The username a deleted account is renamed to: `deleted_` and the first
/// twelve characters of its id's text.
pub open spec fn deleted_username_spec(user_id: u128) -> Seq<char> {
    "deleted_"@ + uuid_text(user_id).subrange(0, 12)
}

/// The username a deleted account is renamed to.
pub fn deleted_username(user_id: u128) -> (r: String)
    ensures
        r@ == deleted_username_spec(user_id),
{
    let t = to_chars(uuid_to_text(user_id).as_str());
    assert(t@.len() == 36);
    let head = sub_chars(&t, 0, 12);
    let mut r = from_chars(&to_chars("deleted_"));
    push_chars(&mut r, &head);
    r
}

/// What deleting an account writes: the account moves to the `deleted`
/// role under a tombstone username, and its avatar file goes.
#[derive(Debug)]
pub struct AccountDeletion {
    pub user_id: u128,
    pub deleted_role: u128,
    pub tombstone_username: String,
    pub avatar_path: String,
}

/// Plans the deletion of account `user_id`; the role cache must know the
/// `deleted` role.
pub fn plan_account_deletion(user_id: u128, roles: &RoleCache) -> (r: Result<AccountDeletion, AppError>)
    ensures
        match id_for_name_spec(roles@, "deleted"@) {
            None => r matches Err(AppError::Internal(m)) && m@ == "RBAC: deleted role not found in cache."@,
            Some(role) => r matches Ok(d) && d.user_id == user_id && d.deleted_role == role
                && d.tombstone_username@ == deleted_username_spec(user_id)
                && d.avatar_path@ == avatar_path_spec(user_id),
        },
{
    match roles.id_for_name("deleted") {
        None => Err(AppError::Internal(from_chars(&to_chars("RBAC: deleted role not found in cache.")))),
        Some(role) => Ok(AccountDeletion {
            user_id,
            deleted_role: role,
            tombstone_username: deleted_username(user_id),
            avatar_path: avatar_path(user_id),
        }),
    }
}

/// The application whose access to revoke, or the page to return to
/// (`/security`) when the form does not name one.
pub fn revoke_client_target(form: &RevokeClientForm) -> (r: Result<u128, &'static str>)
    ensures
        match uuid_parse(form.client_id@) {
            Some(c) => r == Ok::<u128, &'static str>(c),
            None => r matches Err(p) && p@ == "/security"@,
        },
{
    match parse_uuid_str(form.client_id.as_str()) {
        Some(c) => Ok(c),
        None => Err("/security"),
    }
}

/// A new invitation: its id and a code of 32 lowercase hex digits.
#[derive(Debug)]
pub struct NewInvite {
    pub id: u128,
    pub code: String,
}

/// A fresh invitation: a random id and a code from 16 random bytes.
pub fn new_invite() -> (r: NewInvite)
    ensures
        r.code@.len() == 32,
        is_lower_hex(r.code@),
{
    let raw = random_bytes(16);
    proof {
        lemma_hex_lower_is_lower_hex(raw@);
    }
    let code = hex_encode(&raw);
    NewInvite { id: new_uuid_v4(), code }
}

/// The registration link of an invitation.
pub open spec fn invite_url_spec(base_url: Seq<char>, code: Seq<char>) -> Seq<char> {
    base_url + "/auth/register?invite="@ + code
}

/// An invitation as the security page lists it.
#[derive(Debug)]
pub struct InviteView {
    pub url: String,
    pub used: bool,
}

/// How the security page lists an invitation: its link, and whether
/// someone registered with it.
pub fn invite_view(base_url: &str, invite: &Invite) -> (r: InviteView)
    ensures
        r.url@ == invite_url_spec(base_url@, invite.code@),
        r.used == invite.recipient_id is Some,
{
    let mut url = from_chars(&to_chars(base_url));
    push_str(&mut url, "/auth/register?invite=");
    push_str(&mut url, invite.code.as_str());
    InviteView { url, used: invite.recipient_id.is_some() }
}

} // verus!
