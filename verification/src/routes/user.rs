//! Public profiles: the link to one's own profile and which profiles show.
use vstd::prelude::*;
use crate::error::AppError;
use crate::models::{Lookup, User};
use crate::text::{from_chars, push_str, to_chars};

verus! {

/// Where `/profile` sends the browser: the signed-in user's public
/// profile `/@<username>`, or the sign-in page when the user cannot be read.
pub fn profile_redirect(user: &Lookup<User>) -> (r: String)
    ensures
        match user {
            Lookup::Found(u) => r@ == "/@"@ + u.username@,
            _ => r@ == "/auth/login"@,
        },
{
    match user {
        Lookup::Found(u) => {
            let mut r = from_chars(&to_chars("/@"));
            push_str(&mut r, u.username.as_str());
            r
        },
        _ => from_chars(&to_chars("/auth/login")),
    }
}

/// The profile a lookup by username shows: deleted and missing accounts
/// are not found; a failed read is its own error.
pub fn visible_profile(found: Result<Option<User>, AppError>) -> (r: Result<User, AppError>)
    ensures
        match found {
            Ok(Some(u)) => if u.deleted_at is None { r == Ok::<User, AppError>(u) } else { r matches Err(AppError::NotFound) },
            Ok(None) => r matches Err(AppError::NotFound),
            Err(e) => r == Err::<User, AppError>(e),
        },
{
    match found {
        Ok(Some(u)) => {
            if u.is_deleted() {
                Err(AppError::NotFound)
            } else {
                Ok(u)
            }
        },
        Ok(None) => Err(AppError::NotFound),
        Err(e) => Err(e),
    }
}

} // verus!
