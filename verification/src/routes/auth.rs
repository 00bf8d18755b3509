//! Sign-in, registration and password reset by link, as the decisions the
//! endpoints take between their storage reads and writes.
use vstd::prelude::*;
use vstd::utf8::encode_utf8;
use crate::codec::{
    all_ascii, ascii_upper, is_alphanumeric, new_uuid_v4, to_uppercase, unicode_alphanumeric,
    unicode_uppercase, uuid_text, uuid_to_text,
};
use crate::crypto::{argon2_hash, argon2_verify, argon2_verify_result, sha256_hex, sha256_hex_of};
use crate::error::AppError;
use crate::helpers::{password_error, session_user_spec, validate_password, OAUTH_NEXT_KEY, USER_SESSION_KEY};
use crate::models::{PasswordReset, User};
use crate::rbac::{has_by_id_spec, RoleCache};
use crate::routes::captcha::CAPTCHA_SESSION_KEY;
use crate::session::{
    data_view, get_spec, lookup, plain_cookie_value, remember_cookie, session_cookie, Session,
};
use crate::text::{from_chars, str_eq, to_chars, trim, trim_str};

verus! {

/// The sign-in form.
#[derive(Debug)]
pub struct LoginForm {
    pub username: String,
    pub password: String,
    pub captcha: String,
    pub remember: Option<String>,
}

/// The registration form.
#[derive(Debug)]
pub struct RegisterForm {
    pub username: String,
    pub password: String,
    pub password_repeat: String,
    pub captcha: String,
}

/// The form that sets a new password from a reset link.
#[derive(Debug)]
pub struct ResetForm {
    pub token: String,
    pub password: String,
    pub password_repeat: String,
}

/// Query of the sign-in page.
#[derive(Debug)]
pub struct LoginQuery {
    pub reset: Option<String>,
}

/// Query of the reset page.
#[derive(Debug)]
pub struct TokenQuery {
    pub token: Option<String>,
}

/// Permission a role needs for its users to sign in.
pub const LOGIN_PERMISSION: &'static str = "login";

/// The hex SHA-256 of `input` with surrounding whitespace removed.
pub fn hash_input(input: &str) -> (r: String)
    ensures
        r@ == sha256_hex(trim(input@)),
{
    let t = trim_str(input);
    sha256_hex_of(t.as_str())
}

/// What an input to the CAPTCHA hashes to: trimmed, uppercased, trimmed
/// again and hashed.
pub open spec fn captcha_input_hash(input: Seq<char>) -> Seq<char> {
    sha256_hex(trim(unicode_uppercase(trim(input))))
}

/// Whether the session holds a challenge that `input` answers.
pub open spec fn captcha_passes(session: Session, input: Seq<char>) -> bool {
    get_spec(data_view(session.data@), "captcha_hash"@) matches Some(e) && captcha_input_hash(input) == e
}

/// Whether `input` answers the challenge whose hash the session holds; a
/// session without a challenge accepts nothing.
pub fn verify_captcha(session: &Session, input: &str) -> (r: bool)
    ensures
        r == captcha_passes(*session, input@),
        all_ascii(trim(input@)) ==> r == (get_spec(data_view(session.data@), "captcha_hash"@) matches Some(e)
            && sha256_hex(trim(ascii_upper(trim(input@)))) == e),
{
    proof {
        reveal_strlit("captcha_hash");
    }
    let expected = match session.get(CAPTCHA_SESSION_KEY) {
        Some(e) => e,
        None => return false,
    };
    let t = trim_str(input);
    let upper = to_uppercase(t.as_str());
    let h = hash_input(upper.as_str());
    str_eq(h.as_str(), expected.as_str())
}

/// The notice shown on the sign-in page: a confirmation after a reset
/// (query `reset=1`), else none.
pub fn login_notice(query: &LoginQuery) -> (r: Option<&'static str>)
    ensures
        r is Some <==> (query.reset matches Some(v) && v@ == "1"@),
        r matches Some(m) ==> m@ == "Password reset! You can now log in with your new password."@,
{
    match &query.reset {
        Some(v) => {
            if str_eq(v.as_str(), "1") {
                Some("Password reset! You can now log in with your new password.")
            } else {
                None
            }
        },
        None => None,
    }
}

/// What the sign-in endpoint does first.
#[derive(Debug)]
pub enum LoginStep {
    /// Show the form again with this error.
    Reject(&'static str),
    /// Read the user with this (trimmed) username.
    LookupUser(String),
}

/// First step of signing in: the CAPTCHA, then the trimmed username to look up.
pub fn login_request(session: &Session, form: &LoginForm) -> (r: LoginStep)
    ensures
        if captcha_passes(*session, form.captcha@) {
            r matches LoginStep::LookupUser(u) && u@ == trim(form.username@)
        } else {
            r matches LoginStep::Reject(m) && m@ == "Invalid CAPTCHA."@
        },
{
    if !verify_captcha(session, form.captcha.as_str()) {
        return LoginStep::Reject("Invalid CAPTCHA.");
    }
    LoginStep::LookupUser(trim_str(form.username.as_str()))
}

/// The verdict on a sign-in once the user was looked up and the password
/// checked: unknown user, wrong password and deleted account all read
/// the same; an account whose role may not sign in is pending approval.
pub open spec fn login_verdict(
    user: Option<User>,
    password_ok: bool,
    roles: Seq<(u128, Seq<char>, Seq<Seq<char>>)>,
) -> Result<u128, Seq<char>> {
    match user {
        None => Err("Invalid username or password."@),
        Some(u) => if !password_ok || u.deleted_at is Some {
            Err("Invalid username or password."@)
        } else if !has_by_id_spec(roles, u.role, "login"@) {
            Err("Your account is pending admin approval."@)
        } else {
            Ok(u.id)
        },
    }
}

/// Whether `r` is the verdict `v`.
pub open spec fn verdict_is(r: Result<u128, &'static str>, v: Result<u128, Seq<char>>) -> bool {
    match (r, v) {
        (Ok(a), Ok(b)) => a == b,
        (Err(m), Err(n)) => m@ == n,
        _ => false,
    }
}

/// The verdict on a sign-in, given whether the password checked out.
pub fn login_checked(user: Option<&User>, password_ok: bool, roles: &RoleCache) -> (r: Result<u128, &'static str>)
    ensures
        verdict_is(r, login_verdict(match user { Some(u) => Some(*u), None => None }, password_ok, roles@)),
{
    proof {
        reveal_strlit("login");
    }
    match user {
        None => Err("Invalid username or password."),
        Some(u) => {
            if !password_ok || u.is_deleted() {
                Err("Invalid username or password.")
            } else if !roles.has_by_id(&u.role, LOGIN_PERMISSION) {
                Err("Your account is pending admin approval.")
            } else {
                Ok(u.id)
            }
        },
    }
}

/// Second step of signing in: checks `password` against the stored hash
/// of the user that was found (a hash that does not parse fails the
/// check), then gives the verdict.
pub fn login_user_loaded(user: Option<&User>, password: &str, roles: &RoleCache) -> (r: Result<u128, &'static str>)
    ensures
        verdict_is(r, login_verdict(
            match user { Some(u) => Some(*u), None => None },
            match user { Some(u) => argon2_verify_result(password@, u.password@) == Some(true), None => false },
            roles@,
        )),
{
    let ok = match user {
        Some(u) => match argon2_verify(password, u.password.as_str()) {
            Some(b) => b,
            None => false,
        },
        None => false,
    };
    login_checked(user, ok, roles)
}

/// What a completed sign-in answers with.
#[derive(Debug)]
pub struct LoginDone {
    /// Where to send the browser: the pending authorization request, else `/`.
    pub dest: String,
    /// The session id before the sign-in, whose stored row is to be deleted.
    pub old_session_id: String,
    /// The `Set-Cookie` values to send.
    pub cookies: Vec<String>,
}

/// Completes a sign-in of user `user_id`: the session now names the user,
/// forgets the pending authorization request, and moves to a fresh id; a
/// remembered sign-in also sets the long-lived cookie.
pub fn login_complete(session: &mut Session, user_id: u128, remember: bool, secure: bool) -> (r: LoginDone)
    ensures
        r.dest@ == match get_spec(data_view(old(session).data@), "oauth_next"@) {
            Some(n) => n,
            None => "/"@,
        },
        r.old_session_id == old(session).id,
        get_spec(data_view(final(session).data@), "user_id"@) == Some(uuid_text(user_id)),
        session_user_spec(*final(session)) == Some(user_id),
        lookup(data_view(final(session).data@), "oauth_next"@) is None,
        forall|k: Seq<char>| k != "user_id"@ && k != "oauth_next"@ ==> lookup(data_view(final(session).data@), k)
            == lookup(data_view(old(session).data@), k),
        final(session).user_id == Some(user_id),
        final(session).remember == remember,
        final(session).is_new,
        final(session).dirty,
        plain_cookie_value(final(session).id@),
        exists|u: u128| final(session).id@ == uuid_text(u),
        r.cookies@.len() == (if remember { 2int } else { 1int }),
        r.cookies@[0]@ == session_cookie(final(session).id@, secure),
        remember ==> r.cookies@[1]@ == remember_cookie(secure),
{
    proof {
        reveal_strlit("oauth_next");
        reveal_strlit("user_id");
        reveal_strlit("/");
        assert("user_id"@.len() != "oauth_next"@.len());
    }
    let next = session.get(OAUTH_NEXT_KEY);
    session.remember = remember;
    session.user_id = Some(user_id);
    let id_text = uuid_to_text(user_id);
    session.insert(USER_SESSION_KEY, id_text.as_str());
    session.remove(OAUTH_NEXT_KEY);
    let old_session_id = session.regenerate();
    let dest = match next {
        Some(n) => n,
        None => from_chars(&to_chars("/")),
    };
    let mut cookies: Vec<String> = Vec::new();
    cookies.push(session.cookie_header(secure));
    if remember {
        cookies.push(session.remember_cookie_header(secure));
    }
    LoginDone { dest, old_session_id, cookies }
}

/// Whether every character of `u` is alphanumeric (in Unicode) or `_`.
pub open spec fn username_chars_ok(u: Seq<char>) -> bool {
    forall|i: int| 0 <= i < u.len() ==> unicode_alphanumeric(#[trigger] u[i]) || u[i] == '_'
}

/// The error for a (trimmed) username, if any: empty; under 2 or over 32
/// bytes of UTF-8; a character that is neither alphanumeric nor `_`.
pub open spec fn username_error(u: Seq<char>) -> Option<Seq<char>> {
    if u.len() == 0 {
        Some("Username cannot be empty."@)
    } else if encode_utf8(u).len() < 2 || encode_utf8(u).len() > 32 {
        Some("Username must be 2-32 characters."@)
    } else if !username_chars_ok(u) {
        Some("Username may only contain letters, numbers, and underscores."@)
    } else {
        None
    }
}

/// A username of 2 to 32 bytes of UTF-8 whose characters are all
/// alphanumeric in Unicode (capital letters among them) or `_` is
/// accepted; one holding any other character is refused for it.
pub proof fn law_alphanumeric_usernames_accepted(u: Seq<char>, r: Result<(), &'static str>)
    requires
        match r {
            Ok(()) => username_error(u) is None,
            Err(m) => username_error(u) == Some(m@),
        },
        2 <= encode_utf8(u).len() <= 32,
    ensures
        (forall|i: int| 0 <= i < u.len() ==> unicode_alphanumeric(#[trigger] u[i]) || u[i] == '_')
            ==> r is Ok,
        (exists|i: int| 0 <= i < u.len() && !unicode_alphanumeric(#[trigger] u[i]) && u[i] != '_')
            ==> (r matches Err(m) && m@ == "Username may only contain letters, numbers, and underscores."@),
{
    lemma_encode_utf8_empty(u);
}

/// Whether every character of `u` is alphanumeric or `_`.
fn username_chars_valid(u: &str) -> (r: bool)
    ensures
        r == username_chars_ok(u@),
{
    let v = to_chars(u);
    let mut i: usize = 0;
    while i < v.len()
        invariant
            i <= v.len(),
            v@ == u@,
            forall|j: int| 0 <= j < i ==> unicode_alphanumeric(#[trigger] v@[j]) || v@[j] == '_',
        decreases v.len() - i,
    {
        let c = v[i];
        if !(is_alphanumeric(c) || c == '_') {
            return false;
        }
        i += 1;
    }
    true
}

proof fn lemma_encode_utf8_empty(s: Seq<char>)
    ensures
        (encode_utf8(s).len() == 0) == (s.len() == 0),
{
    if s.len() > 0 {
        assert(encode_utf8(s) == vstd::utf8::encode_scalar(s[0] as u32) + encode_utf8(s.drop_first()));
    }
}

/// Checks a trimmed username.
pub fn validate_username(u: &str) -> (r: Result<(), &'static str>)
    ensures
        match r {
            Ok(()) => username_error(u@) is None,
            Err(m) => username_error(u@) == Some(m@),
        },
{
    proof {
        lemma_encode_utf8_empty(u@);
    }
    if u.as_bytes().len() == 0 {
        return Err("Username cannot be empty.");
    }
    let n = u.as_bytes().len();
    if n < 2 || n > 32 {
        return Err("Username must be 2-32 characters.");
    }
    if !username_chars_valid(u) {
        return Err("Username may only contain letters, numbers, and underscores.");
    }
    Ok(())
}

/// An account ready to be created.
#[derive(Debug)]
pub struct NewAccount {
    pub id: u128,
    pub username: String,
    pub password_hash: String,
}

/// What the registration endpoint does.
#[derive(Debug)]
pub enum RegisterStep {
    /// Show the form again with this error.
    Reject(&'static str),
    /// Hashing the password failed.
    Fail(AppError),
    /// Create this account.
    Create(NewAccount),
}

/// First step of registering: the CAPTCHA, the trimmed username, the
/// password and its confirmation, in that order; then a fresh id and the
/// Argon2 hash of the password, which fails only for a password over
/// `0xFFFF_FFFF` bytes.
pub fn register_request(session: &Session, form: &RegisterForm) -> (r: RegisterStep)
    ensures
        if !captcha_passes(*session, form.captcha@) {
            r matches RegisterStep::Reject(m) && m@ == "Invalid CAPTCHA."@
        } else {
            match username_error(trim(form.username@)) {
                Some(msg) => r matches RegisterStep::Reject(m) && m@ == msg,
                None => match password_error(form.password@, form.password_repeat@) {
                    Some(msg) => r matches RegisterStep::Reject(m) && m@ == msg,
                    None => if encode_utf8(form.password@).len() <= 0xFFFF_FFFF {
                        r matches RegisterStep::Create(a) && a.username@ == trim(form.username@)
                            && argon2_verify_result(form.password@, a.password_hash@) == Some(true)
                    } else {
                        r matches RegisterStep::Fail(e) && e is Internal
                    },
                },
            }
        },
{
    if !verify_captcha(session, form.captcha.as_str()) {
        return RegisterStep::Reject("Invalid CAPTCHA.");
    }
    let username = trim_str(form.username.as_str());
    match validate_username(username.as_str()) {
        Err(m) => return RegisterStep::Reject(m),
        Ok(()) => {},
    }
    match validate_password(form.password.as_str(), form.password_repeat.as_str()) {
        Err(m) => return RegisterStep::Reject(m),
        Ok(()) => {},
    }
    match argon2_hash(form.password.as_str()) {
        Ok(password_hash) => {
            let id = new_uuid_v4();
            RegisterStep::Create(NewAccount { id, username, password_hash })
        },
        Err(e) => RegisterStep::Fail(AppError::Internal(e)),
    }
}

/// The message after the account row was (or was not) inserted: a name
/// already taken is an error shown on the form.
pub fn register_inserted(inserted: bool) -> (r: Result<&'static str, &'static str>)
    ensures
        inserted ==> (r matches Ok(m) && m@ == "Account created! You'll need to wait for an admin to approve you before logging in."@),
        !inserted ==> (r matches Err(m) && m@ == "That username is already taken."@),
{
    if inserted {
        Ok("Account created! You'll need to wait for an admin to approve you before logging in.")
    } else {
        Err("That username is already taken.")
    }
}

/// The hash to look up for the reset page, or `None` when the link
/// carries no token (the page then sends the browser to sign in).
pub fn reset_page_lookup(query: &TokenQuery) -> (r: Option<String>)
    ensures
        match query.token {
            Some(t) => r matches Some(h) && h@ == sha256_hex(trim(t@)),
            None => r is None,
        },
{
    match &query.token {
        Some(t) => Some(hash_input(t.as_str())),
        None => None,
    }
}

/// What the reset endpoint does once the reset row was looked up.
#[derive(Debug)]
pub enum ResetStep {
    /// Show the form again with this error.
    Reject(&'static str),
    /// Read the user with this id.
    LookupUser(u128),
}

/// Second step of a reset by link: the link must name a live reset, and
/// the new password must be acceptable.
pub fn reset_loaded(reset: Option<&PasswordReset>, form: &ResetForm) -> (r: ResetStep)
    ensures
        match reset {
            None => r matches ResetStep::Reject(m) && m@ == "This reset link is invalid or has expired."@,
            Some(row) => match password_error(form.password@, form.password_repeat@) {
                Some(msg) => r matches ResetStep::Reject(m) && m@ == msg,
                None => r == ResetStep::LookupUser(row.user_id),
            },
        },
{
    match reset {
        None => ResetStep::Reject("This reset link is invalid or has expired."),
        Some(row) => match validate_password(form.password.as_str(), form.password_repeat.as_str()) {
            Err(m) => ResetStep::Reject(m),
            Ok(()) => ResetStep::LookupUser(row.user_id),
        },
    }
}

/// A new password ready to be stored for a user.
#[derive(Debug)]
pub struct NewPassword {
    pub user_id: u128,
    pub password_hash: String,
}

/// Third step of a reset by link: the user must exist; the new password
/// is hashed, which fails only for a password over `0xFFFF_FFFF` bytes.
pub fn reset_user_loaded(user: Option<&User>, form: &ResetForm) -> (r: Result<NewPassword, AppError>)
    ensures
        match user {
            None => r matches Err(AppError::Internal(m)) && m@ == "User not found"@,
            Some(u) => if encode_utf8(form.password@).len() <= 0xFFFF_FFFF {
                r matches Ok(p) && p.user_id == u.id
                    && argon2_verify_result(form.password@, p.password_hash@) == Some(true)
            } else {
                r matches Err(e) && e is Internal
            },
        },
{
    match user {
        None => Err(AppError::Internal(from_chars(&to_chars("User not found")))),
        Some(u) => match argon2_hash(form.password.as_str()) {
            Ok(password_hash) => Ok(NewPassword { user_id: u.id, password_hash }),
            Err(e) => Err(AppError::Internal(e)),
        },
    }
}

} // verus!
