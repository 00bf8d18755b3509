//! Shared rules: password confirmation, the site's base URL as a request
//! shows it, the signed-in user's display values, and the user id a
//! session carries.
use vstd::prelude::*;
use vstd::utf8::encode_utf8;
use crate::codec::{parse_uuid_str, uuid_parse};
use crate::models::User;
use crate::rbac::{name_for_id_spec, RoleCache};
use crate::session::{get_spec, data_view, Session};
use crate::text::{from_chars, push_str, str_eq, to_chars};

verus! {

/// Session key under which the signed-in user's id is stored.
pub const USER_SESSION_KEY: &'static str = "user_id";

/// Session key under which the authorization request to resume after
/// login is stored.
pub const OAUTH_NEXT_KEY: &'static str = "oauth_next";

/// The error for a password and its confirmation, if any: too short (under
/// six bytes of UTF-8), else not matching.
pub open spec fn password_error(password: Seq<char>, repeat: Seq<char>) -> Option<Seq<char>> {
    if encode_utf8(password).len() < 6 {
        Some("Password must be at least 6 characters."@)
    } else if password != repeat {
        Some("Passwords do not match."@)
    } else {
        None
    }
}

/// Checks a new password and its confirmation.
pub fn validate_password(password: &str, password_repeat: &str) -> (r: Result<(), &'static str>)
    ensures
        match r {
            Ok(()) => password_error(password@, password_repeat@) is None,
            Err(m) => password_error(password@, password_repeat@) == Some(m@),
        },
{
    if password.as_bytes().len() < 6 {
        return Err("Password must be at least 6 characters.");
    }
    if !str_eq(password, password_repeat) {
        return Err("Passwords do not match.");
    }
    Ok(())
}

/// `scheme://host` from the `x-forwarded-proto` and `host` header values,
/// defaulting to `http` and `localhost`.
pub open spec fn base_url_spec(host: Option<Seq<char>>, proto: Option<Seq<char>>) -> Seq<char> {
    let scheme = match proto {
        Some(p) => p,
        None => "http"@,
    };
    let h = match host {
        Some(x) => x,
        None => "localhost"@,
    };
    scheme + "://"@ + h
}

/// The view of an optional string slice.
pub open spec fn opt_str(o: Option<&str>) -> Option<Seq<char>> {
    match o {
        Some(s) => Some(s@),
        None => None,
    }
}

/// The site's base URL as the request's headers show it.
pub fn base_url_from_headers(host: Option<&str>, proto: Option<&str>) -> (r: String)
    ensures
        r@ == base_url_spec(opt_str(host), opt_str(proto)),
{
    let mut r = String::new();
    match proto {
        Some(p) => push_str(&mut r, p),
        None => push_str(&mut r, "http"),
    }
    push_str(&mut r, "://");
    match host {
        Some(h) => push_str(&mut r, h),
        None => push_str(&mut r, "localhost"),
    }
    r
}

/// The signed-in user's values that every page shows.
#[derive(Debug)]
pub struct UserCtx {
    pub username: Option<String>,
    pub role: String,
    pub display_name: Option<String>,
    pub color: Option<String>,
}

fn copy_opt(o: &Option<String>) -> (r: Option<String>)
    ensures
        match (r, *o) {
            (Some(a), Some(b)) => a@ == b@,
            (None, None) => true,
            _ => false,
        },
{
    match o {
        Some(s) => Some(from_chars(&to_chars(s.as_str()))),
        None => None,
    }
}

/// Whether `c` shows `user` with the name of its role.
pub open spec fn ctx_shows(c: UserCtx, user: User, roles: Seq<(u128, Seq<char>, Seq<Seq<char>>)>) -> bool {
    &&& c.username matches Some(u) && u@ == user.username@
    &&& c.role@ == (match name_for_id_spec(roles, user.role) {
        Some(n) => n,
        None => Seq::empty(),
    })
    &&& match (c.display_name, user.display_name) {
        (Some(a), Some(b)) => a@ == b@,
        (None, None) => true,
        _ => false,
    }
    &&& match (c.color, user.color) {
        (Some(a), Some(b)) => a@ == b@,
        (None, None) => true,
        _ => false,
    }
}

impl UserCtx {
    /// The values shown when nobody is signed in.
    pub fn anonymous() -> (r: UserCtx)
        ensures
            r.username is None,
            r.role@ == Seq::<char>::empty(),
            r.display_name is None,
            r.color is None,
    {
        UserCtx { username: None, role: String::new(), display_name: None, color: None }
    }

    /// The values shown for `user`; an unknown role shows as empty.
    pub fn of(user: &User, roles: &RoleCache) -> (r: UserCtx)
        ensures
            ctx_shows(r, *user, roles@),
    {
        let role = match roles.name_for_id(&user.role) {
            Some(n) => n,
            None => String::new(),
        };
        UserCtx {
            username: Some(from_chars(&to_chars(user.username.as_str()))),
            role,
            display_name: copy_opt(&user.display_name),
            color: copy_opt(&user.color),
        }
    }

    /// The values shown on a page: those of the session's user when the
    /// session names one and the store returned it, else anonymous ones.
    pub fn for_session_user(session_user: Option<String>, user: Option<&User>, roles: &RoleCache) -> (r: UserCtx)
        ensures
            match (session_user, user) {
                (Some(_), Some(u)) => ctx_shows(r, *u, roles@),
                _ => r.username is None && r.role@ == Seq::<char>::empty() && r.display_name is None && r.color is None,
            },
    {
        match (session_user, user) {
            (Some(_), Some(u)) => UserCtx::of(u, roles),
            _ => UserCtx::anonymous(),
        }
    }
}

/// The id of the signed-in user: the text under `USER_SESSION_KEY`,
/// parsed as a UUID.
pub open spec fn session_user_spec(s: Session) -> Option<u128> {
    match get_spec(data_view(s.data@), "user_id"@) {
        Some(t) => uuid_parse(t),
        None => None,
    }
}

/// The id of the signed-in user, if the session names a valid one.
pub fn session_user_id(session: &Session) -> (r: Option<u128>)
    ensures
        r == session_user_spec(*session),
{
    match session.get(USER_SESSION_KEY) {
        Some(t) => parse_uuid_str(t.as_str()),
        None => None,
    }
}

/// Whether the session has a signed-in user (any text under `USER_SESSION_KEY`).
pub fn is_signed_in(session: &Session) -> (r: bool)
    ensures
        r == get_spec(data_view(session.data@), "user_id"@) is Some,
{
    session.get(USER_SESSION_KEY).is_some()
}

/// The signed-in user's id, or the page to send the browser to
/// (`/auth/login`) when the session names no valid user.
pub fn require_session_user(session: &Session) -> (r: Result<u128, &'static str>)
    ensures
        match session_user_spec(*session) {
            Some(u) => r == Ok::<u128, &'static str>(u),
            None => r matches Err(p) && p@ == "/auth/login"@,
        },
{
    match session_user_id(session) {
        Some(u) => Ok(u),
        None => Err("/auth/login"),
    }
}

} // verus!
