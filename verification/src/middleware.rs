//! Request guards: who may reach a page, and the security headers every
//! answer carries.
use vstd::prelude::*;
use crate::error::AppError;
use crate::models::{Lookup, User};
use crate::rbac::{has_by_id_spec, RoleCache};
use crate::session::{data_view, get_spec, Session};
use crate::helpers::USER_SESSION_KEY;

verus! {

/// Permission needed for the admin panel.
pub const ACCESS_ADMIN: &'static str = "access_admin";

/// What a guard decides.
#[derive(Debug)]
pub enum Gate {
    /// Let the request through.
    Proceed,
    /// Send the browser to this page.
    Redirect(&'static str),
    /// Answer with this error page.
    Refuse(AppError),
}

/// Pages for signed-in users: others are sent to sign in.
pub fn require_auth(session: &Session) -> (r: Gate)
    ensures
        match get_spec(data_view(session.data@), "user_id"@) {
            Some(_) => r is Proceed,
            None => r matches Gate::Redirect(p) && p@ == "/auth/login"@,
        },
{
    match session.get(USER_SESSION_KEY) {
        Some(_) => Gate::Proceed,
        None => Gate::Redirect("/auth/login"),
    }
}

/// Pages for visitors (sign-in, registration): signed-in users are sent home.
pub fn redirect_if_authed(session: &Session) -> (r: Gate)
    ensures
        match get_spec(data_view(session.data@), "user_id"@) {
            Some(_) => r matches Gate::Redirect(p) && p@ == "/"@,
            None => r is Proceed,
        },
{
    match session.get(USER_SESSION_KEY) {
        Some(_) => Gate::Redirect("/"),
        None => Gate::Proceed,
    }
}

/// First step of the admin guard: the signed-in user's id text to look
/// up, or the sign-in page.
pub fn require_admin_request(session: &Session) -> (r: Result<String, &'static str>)
    ensures
        match get_spec(data_view(session.data@), "user_id"@) {
            Some(id) => r matches Ok(t) && t@ == id,
            None => r matches Err(p) && p@ == "/auth/login"@,
        },
{
    match session.get(USER_SESSION_KEY) {
        Some(id) => Ok(id),
        None => Err("/auth/login"),
    }
}

/// Second step of the admin guard: a user that could not be read is sent
/// to sign in; a user whose role lacks `access_admin` gets the forbidden page.
pub fn require_admin_user_loaded(user: &Lookup<User>, roles: &RoleCache) -> (r: Gate)
    ensures
        match user {
            Lookup::Found(u) => if has_by_id_spec(roles@, u.role, "access_admin"@) {
                r is Proceed
            } else {
                r matches Gate::Refuse(e) && e is Forbidden
            },
            _ => r matches Gate::Redirect(p) && p@ == "/auth/login"@,
        },
{
    match user {
        Lookup::Found(u) => {
            if roles.has_by_id(&u.role, ACCESS_ADMIN) {
                Gate::Proceed
            } else {
                Gate::Refuse(AppError::Forbidden)
            }
        },
        _ => Gate::Redirect("/auth/login"),
    }
}

/// The headers every answer carries, in order; release builds add HSTS.
pub open spec fn security_headers_spec(release: bool) -> Seq<(Seq<char>, Seq<char>)> {
    let base = seq![
        ("X-Content-Type-Options"@, "nosniff"@),
        ("X-Frame-Options"@, "DENY"@),
        ("X-XSS-Protection"@, "1; mode=block"@),
        ("Referrer-Policy"@, "strict-origin-when-cross-origin"@),
        ("Permissions-Policy"@, "geolocation=(), microphone=(), camera=()"@),
        (
            "Content-Security-Policy"@,
            "default-src 'self'; script-src 'self'; style-src 'self' 'unsafe-inline'; img-src 'self' data:"@,
        ),
    ];
    if release {
        base.push(("Strict-Transport-Security"@, "max-age=63072000; includeSubDomains; preload"@))
    } else {
        base
    }
}

/// The view of a list of header pairs.
pub open spec fn pairs_view(v: Seq<(&'static str, &'static str)>) -> Seq<(Seq<char>, Seq<char>)> {
    v.map_values(|p: (&'static str, &'static str)| (p.0@, p.1@))
}

/// The headers every answer carries.
pub fn security_headers(release: bool) -> (r: Vec<(&'static str, &'static str)>)
    ensures
        pairs_view(r@) == security_headers_spec(release),
{
    let mut r: Vec<(&'static str, &'static str)> = Vec::new();
    r.push(("X-Content-Type-Options", "nosniff"));
    r.push(("X-Frame-Options", "DENY"));
    r.push(("X-XSS-Protection", "1; mode=block"));
    r.push(("Referrer-Policy", "strict-origin-when-cross-origin"));
    r.push(("Permissions-Policy", "geolocation=(), microphone=(), camera=()"));
    r.push((
        "Content-Security-Policy",
        "default-src 'self'; script-src 'self'; style-src 'self' 'unsafe-inline'; img-src 'self' data:",
    ));
    if release {
        r.push(("Strict-Transport-Security", "max-age=63072000; includeSubDomains; preload"));
    }
    assert(pairs_view(r@) =~= security_headers_spec(release));
    r
}

} // verus!
