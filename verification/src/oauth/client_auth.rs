//! Client authentication: HTTP Basic credentials and client secrets.
use vstd::prelude::*;
use vstd::utf8::{decode_utf8, valid_utf8};
use crate::codec::{base64_decode, base64_standard_decode, parse_uuid_str, string_from_utf8, uuid_parse};
use crate::crypto::{argon2_verify, argon2_verify_result};
use crate::models::OAuthClient;
use crate::text::{find_char, from_chars, split_once, string_of_range, strip_prefix_chars, strip_prefix_spec, to_chars};

verus! {

/// The prefix of an HTTP Basic `Authorization` header value.
pub open spec fn basic_prefix() -> Seq<char> {
    seq!['B', 'a', 's', 'i', 'c', ' ']
}

/// The view of an optional string.
pub open spec fn opt_view(o: Option<&str>) -> Option<Seq<char>> {
    match o {
        Some(s) => Some(s@),
        None => None,
    }
}

/// The view of an optional pair of strings.
pub open spec fn pair_view(o: Option<(String, String)>) -> Option<(Seq<char>, Seq<char>)> {
    match o {
        Some((a, b)) => Some((a@, b@)),
        None => None,
    }
}

/// The `id:secret` pair that decoded credential bytes hold: the bytes must
/// be UTF-8 and are split at their first colon.
pub open spec fn credentials_of_bytes(b: Seq<u8>) -> Option<(Seq<char>, Seq<char>)> {
    if valid_utf8(b) {
        split_once(decode_utf8(b), ':')
    } else {
        None
    }
}

/// The credentials of an HTTP Basic `Authorization` header value:
/// `Basic `, then standard Base64 of UTF-8 text `id:secret`.
pub open spec fn basic_credentials(authorization: Option<Seq<char>>) -> Option<(Seq<char>, Seq<char>)> {
    match authorization {
        None => None,
        Some(a) => match strip_prefix_spec(a, basic_prefix()) {
            None => None,
            Some(encoded) => match base64_standard_decode(encoded) {
                None => None,
                Some(bytes) => credentials_of_bytes(bytes),
            },
        },
    }
}

/// Credentials from a Basic header if it yields them, else from the
/// form fields when both are present.
pub open spec fn client_credentials(
    authorization: Option<Seq<char>>,
    form_id: Option<Seq<char>>,
    form_secret: Option<Seq<char>>,
) -> Option<(Seq<char>, Seq<char>)> {
    match basic_credentials(authorization) {
        Some(c) => Some(c),
        None => match (form_id, form_secret) {
            (Some(i), Some(s)) => Some((i, s)),
            _ => None,
        },
    }
}

/// The `id:secret` pair held by decoded credential bytes.
pub fn credentials_from_decoded(decoded: Vec<u8>) -> (r: Option<(String, String)>)
    ensures
        pair_view(r) == credentials_of_bytes(decoded@),
{
    let ghost bytes = decoded@;
    let text = match string_from_utf8(decoded) {
        Some(t) => t,
        None => return None,
    };
    let v = to_chars(text.as_str());
    match find_char(&v, ':') {
        Some(i) => {
            let id = string_of_range(&v, 0, i);
            let secret = string_of_range(&v, i + 1, v.len());
            assert(v@.subrange(0, i as int) =~= v@.take(i as int));
            assert(v@.subrange(i + 1, v@.len() as int) =~= v@.skip(i + 1));
            Some((id, secret))
        },
        None => None,
    }
}

/// The credentials of an HTTP Basic `Authorization` header value, if it
/// carries well-formed ones.
pub fn extract_basic_credentials(authorization: Option<&str>) -> (r: Option<(String, String)>)
    ensures
        pair_view(r) == basic_credentials(opt_view(authorization)),
{
    let a = match authorization {
        Some(a) => a,
        None => return None,
    };
    let v = to_chars(a);
    let p: [char; 6] = ['B', 'a', 's', 'i', 'c', ' '];
    assert(p@ =~= basic_prefix());
    let rest = match strip_prefix_chars(&v, &p) {
        Some(r) => r,
        None => return None,
    };
    let encoded = from_chars(&rest);
    match base64_decode(encoded.as_str()) {
        Some(bytes) => credentials_from_decoded(bytes),
        None => None,
    }
}

/// Client credentials from a Basic `Authorization` header, falling back to
/// the `client_id` and `client_secret` form fields.
pub fn extract_client_credentials(
    authorization: Option<&str>,
    form_id: Option<&str>,
    form_secret: Option<&str>,
) -> (r: Option<(String, String)>)
    ensures
        pair_view(r) == client_credentials(opt_view(authorization), opt_view(form_id), opt_view(form_secret)),
{
    match extract_basic_credentials(authorization) {
        Some(c) => Some(c),
        None => match (form_id, form_secret) {
            (Some(i), Some(s)) => Some((from_chars(&to_chars(i)), from_chars(&to_chars(s)))),
            _ => None,
        },
    }
}

/// The client id that `s` names, if it is a UUID.
pub fn parse_client_id(s: &str) -> (r: Option<u128>)
    ensures
        r == uuid_parse(s@),
{
    parse_uuid_str(s)
}

/// Whether `secret` verifies against the client's stored secret hash.
pub open spec fn secret_accepted(client: OAuthClient, secret: Seq<char>) -> bool {
    argon2_verify_result(secret, client.secret_hash@) == Some(true)
}

/// Whether `secret` verifies against the client's stored secret hash.
pub fn client_secret_matches(client: &OAuthClient, secret: &str) -> (r: bool)
    ensures
        r == secret_accepted(*client, secret@),
{
    match argon2_verify(secret, client.secret_hash.as_str()) {
        Some(ok) => ok,
        None => false,
    }
}

/// The authenticated client: the stored client, when there is one and the
/// secret verifies against it.
pub fn authenticate_client(client: Option<OAuthClient>, secret: &str) -> (r: Option<OAuthClient>)
    ensures
        r == (match client {
            Some(c) => if secret_accepted(c, secret@) { Some(c) } else { None },
            None => None,
        }),
{
    match client {
        Some(c) => {
            if client_secret_matches(&c, secret) {
                Some(c)
            } else {
                None
            }
        },
        None => None,
    }
}

} // verus!
