//! Serving avatar images: which file, and the entity tag that lets
//! browsers keep their copy.
use vstd::prelude::*;
use crate::codec::{int_decimal, i64_to_decimal, parse_uuid_str, uuid_parse, uuid_text, uuid_to_text};
use crate::models::User;
use crate::routes::oauth::floor_div_1000;
use crate::text::{from_chars, push_str, str_eq, to_chars};

verus! {

/// Directory holding the users' avatar images.
pub const AVATAR_DIR: &'static str = "uploads/avatars";

/// Where a user's avatar image is kept: `uploads/avatars/<id>.gif`.
pub open spec fn avatar_path_spec(user_id: u128) -> Seq<char> {
    "uploads/avatars/"@ + uuid_text(user_id) + ".gif"@
}

/// Where a user's avatar image is kept.
pub fn avatar_path(user_id: u128) -> (r: String)
    ensures
        r@ == avatar_path_spec(user_id),
{
    let mut r = from_chars(&to_chars(AVATAR_DIR));
    push_str(&mut r, "/");
    let id = uuid_to_text(user_id);
    push_str(&mut r, id.as_str());
    push_str(&mut r, ".gif");
    proof {
        reveal_strlit("uploads/avatars");
        reveal_strlit("/");
        reveal_strlit("uploads/avatars/");
        assert("uploads/avatars"@ + "/"@ =~= "uploads/avatars/"@);
    }
    r
}

/// The entity tag of an avatar updated at `updated_micros` (Unix
/// microseconds): the update time in whole milliseconds, in quotes.
pub open spec fn avatar_etag_spec(updated_micros: i64) -> Seq<char> {
    "\""@ + int_decimal(updated_micros as int / 1000) + "\""@
}

/// The entity tag of an avatar.
pub fn avatar_etag(updated_micros: i64) -> (r: String)
    ensures
        r@ == avatar_etag_spec(updated_micros),
{
    let mut r = from_chars(&to_chars("\""));
    let ms = i64_to_decimal(floor_div_1000(updated_micros));
    push_str(&mut r, ms.as_str());
    push_str(&mut r, "\"");
    r
}

/// What the avatar endpoint answers.
#[derive(Debug)]
pub enum AvatarStep {
    /// 404: no such user, or no avatar.
    NotFound,
    /// 304: the browser's copy is current.
    NotModified,
    /// Send the image at `path` with entity tag `etag`.
    Serve { path: String, etag: String },
}

/// The user whose avatar is asked for, if the path names a UUID.
pub fn avatar_request(user_id: &str) -> (r: Option<u128>)
    ensures
        r == uuid_parse(user_id@),
{
    parse_uuid_str(user_id)
}

/// The answer once the user was looked up: no user or no avatar is a 404;
/// an `If-None-Match` equal to the current tag is a 304; else the image.
pub fn avatar_user_loaded(user: Option<&User>, if_none_match: Option<&str>) -> (r: AvatarStep)
    ensures
        match user {
            None => r is NotFound,
            Some(u) => match u.avatar_updated_at {
                None => r is NotFound,
                Some(t) => if (if_none_match matches Some(h) && h@ == avatar_etag_spec(t)) {
                    r is NotModified
                } else {
                    r matches AvatarStep::Serve { path, etag } && path@ == avatar_path_spec(u.id)
                        && etag@ == avatar_etag_spec(t)
                },
            },
        },
{
    let u = match user {
        Some(u) => u,
        None => return AvatarStep::NotFound,
    };
    let t = match u.avatar_updated_at {
        Some(t) => t,
        None => return AvatarStep::NotFound,
    };
    let etag = avatar_etag(t);
    match if_none_match {
        Some(h) => {
            if str_eq(h, etag.as_str()) {
                return AvatarStep::NotModified;
            }
        },
        None => {},
    }
    AvatarStep::Serve { path: avatar_path(u.id), etag }
}

} // verus!
