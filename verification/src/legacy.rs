//! Importing accounts from the legacy user export: usernames made valid,
//! roles and colors carried over, creation times converted.
use vstd::prelude::*;
use chrono::TimeZone;
use crate::codec::{is_alphanumeric, unicode_alphanumeric};
use crate::crypto::{argon2_hash, argon2_verify_result, lemma_utf8_len_at_most_four_per_char};
use crate::routes::captcha::{alnum_text, random_alphanumeric};
use crate::session::opt_string_view;
use crate::text::{chars_eq, from_chars, str_eq, to_chars};

verus! {

/// A user record of the legacy export.
#[derive(Debug)]
pub struct LegacyUser {
    pub username: String,
    pub is_admin: bool,
    pub status: String,
    pub color: Option<String>,
    /// Creation time, in Unix milliseconds.
    pub created_at_ms: i64,
}

/// What one character of a legacy username becomes: a space turns into
/// `_`; letters, digits and `_` stay; anything else is dropped.
pub open spec fn sanitize_char(c: char) -> Seq<char> {
    if c == ' ' {
        seq!['_']
    } else if unicode_alphanumeric(c) || c == '_' {
        seq![c]
    } else {
        Seq::empty()
    }
}

/// A legacy username made valid, character by character.
pub open spec fn sanitize_spec(s: Seq<char>) -> Seq<char>
    decreases s.len(),
{
    if s.len() == 0 {
        Seq::empty()
    } else {
        sanitize_spec(s.drop_last()) + sanitize_char(s.last())
    }
}

/// The valid username for a legacy one, and the name as given, kept as display name
/// when the two differ.
pub fn sanitize_username(raw: &str) -> (r: (String, Option<String>))
    ensures
        r.0@ == sanitize_spec(raw@),
        r.1 is None <==> sanitize_spec(raw@) == raw@,
        r.1 matches Some(d) ==> d@ == raw@,
{
    let v = to_chars(raw);
    let mut out: Vec<char> = Vec::new();
    let mut i: usize = 0;
    while i < v.len()
        invariant
            i <= v@.len(),
            v@ == raw@,
            out@ == sanitize_spec(v@.take(i as int)),
        decreases v@.len() - i,
    {
        let c = v[i];
        let ghost before = out@;
        if c == ' ' {
            out.push('_');
        } else if is_alphanumeric(c) || c == '_' {
            out.push(c);
        }
        proof {
            assert(v@.take(i + 1).drop_last() =~= v@.take(i as int));
            assert(out@ =~= before + sanitize_char(c));
        }
        i += 1;
    }
    assert(v@.take(v@.len() as int) =~= v@);
    let same = chars_eq(&out, &v);
    let name = from_chars(&out);
    if same {
        (name, None)
    } else {
        (name, Some(from_chars(&v)))
    }
}

/// Whether every character of `s` is a letter, a digit or `_`, other than a space.
pub open spec fn username_shaped(s: Seq<char>) -> bool {
    forall|i: int| 0 <= i < s.len() ==> (#[trigger] s[i] == '_' || (unicode_alphanumeric(s[i]) && s[i] != ' '))
}

proof fn lemma_sanitize_shape(s: Seq<char>)
    ensures
        username_shaped(sanitize_spec(s)),
    decreases s.len(),
{
    if s.len() > 0 {
        lemma_sanitize_shape(s.drop_last());
        let a = sanitize_spec(s.drop_last());
        let b = sanitize_char(s.last());
        assert forall|i: int| 0 <= i < (a + b).len() implies (#[trigger] (a + b)[i] == '_'
            || (unicode_alphanumeric((a + b)[i]) && (a + b)[i] != ' ')) by {
            if i < a.len() {
                assert((a + b)[i] == a[i]);
            } else {
                assert((a + b)[i] == b[i - a.len()]);
            }
        }
    }
}

proof fn lemma_sanitize_fixed(s: Seq<char>)
    requires
        username_shaped(s),
    ensures
        sanitize_spec(s) == s,
    decreases s.len(),
{
    if s.len() > 0 {
        assert(username_shaped(s.drop_last())) by {
            assert forall|i: int| 0 <= i < s.drop_last().len() implies (#[trigger] s.drop_last()[i] == '_'
                || (unicode_alphanumeric(s.drop_last()[i]) && s.drop_last()[i] != ' ')) by {
                assert(s.drop_last()[i] == s[i]);
            }
        }
        lemma_sanitize_fixed(s.drop_last());
        let c = s.last();
        assert(c == s[s.len() - 1]);
        assert(sanitize_char(c) == seq![c]);
        assert(s.drop_last() + seq![c] =~= s);
    }
}

/// A sanitized username holds only letters, digits and `_`, and
/// sanitizing it again changes nothing, so an imported account keeps no
/// display name of its own.
pub proof fn law_sanitize_idempotent(raw: Seq<char>)
    ensures
        username_shaped(sanitize_spec(raw)),
        sanitize_spec(sanitize_spec(raw)) == sanitize_spec(raw),
{
    lemma_sanitize_shape(raw);
    lemma_sanitize_fixed(sanitize_spec(raw));
}

/// The role a legacy account gets.
#[derive(Debug, PartialEq, Eq, Structural, Clone, Copy)]
pub enum LegacyRole {
    Admin,
    Member,
    Pending,
}

/// Admins stay admins; approved accounts become members; all others wait
/// for approval.
pub open spec fn legacy_role_spec(is_admin: bool, status: Seq<char>) -> LegacyRole {
    if is_admin {
        LegacyRole::Admin
    } else if status == "approved"@ {
        LegacyRole::Member
    } else {
        LegacyRole::Pending
    }
}

/// The role a legacy account gets.
pub fn legacy_role(is_admin: bool, status: &str) -> (r: LegacyRole)
    ensures
        r == legacy_role_spec(is_admin, status@),
{
    if is_admin {
        LegacyRole::Admin
    } else if str_eq(status, "approved") {
        LegacyRole::Member
    } else {
        LegacyRole::Pending
    }
}

/// A legacy color, dropped when empty.
pub fn legacy_color(color: Option<String>) -> (r: Option<String>)
    ensures
        opt_string_view(r) == match opt_string_view(color) {
            Some(c) => if c.len() == 0 { None } else { Some(c) },
            None => None,
        },
{
    match color {
        Some(c) => {
            if c.as_str().as_bytes().len() == 0 {
                proof {
                    if c@.len() > 0 {
                        assert(vstd::utf8::encode_utf8(c@) == vstd::utf8::encode_scalar(c@[0] as u32)
                            + vstd::utf8::encode_utf8(c@.drop_first()));
                    }
                }
                None
            } else {
                proof {
                    if c@.len() == 0 {
                        assert(vstd::utf8::encode_utf8(c@).len() == 0);
                    }
                }
                Some(c)
            }
        },
        None => None,
    }
}

/// Seconds of a legacy time in milliseconds, truncated toward zero.
pub open spec fn legacy_secs(ms: int) -> int {
    if ms >= 0 { ms / 1000 } else { -((-ms) / 1000) }
}

/// Nanoseconds of a legacy time: the millisecond remainder (with the sign
/// of `ms`) times a million, wrapped to 32 bits.
pub open spec fn legacy_nanos(ms: int) -> int {
    ((ms - legacy_secs(ms) * 1000) * 1_000_000) % 0x1_0000_0000
}

/// The seconds and nanoseconds that a legacy time in milliseconds is split into.
pub fn legacy_time_parts(ms: i64) -> (r: (i64, u32))
    ensures
        r.0 == legacy_secs(ms as int),
        r.1 == legacy_nanos(ms as int),
{
    let secs = ms / 1000;
    let rem = ms % 1000;
    let prod = rem * 1_000_000;
    let nanos: u32 = if prod >= 0 {
        prod as u32
    } else {
        (prod + 0x1_0000_0000i64) as u32
    };
    (secs, nanos)
}

/// First second of the earliest instant chrono holds, -262143-01-01T00:00:00Z.
pub const CHRONO_MIN_SECS: i64 = -8_334_601_228_800;

/// Last second of the latest day chrono holds, +262142-12-31T23:59:59Z.
pub const CHRONO_MAX_SECS: i64 = 8_210_266_876_799;

/// The Unix microseconds of `Utc.timestamp_opt(secs, nanos).single()`:
/// chrono accepts fewer than two billion nanoseconds, a second billion (a
/// leap second) only in the last second of a minute, and only seconds of
/// the days it holds; the time is `secs` seconds and `nanos / 1000`
/// microseconds.
pub open spec fn chrono_timestamp_micros(secs: i64, nanos: u32) -> Option<i64> {
    if nanos < 2_000_000_000 && (nanos < 1_000_000_000 || secs % 60 == 59) && CHRONO_MIN_SECS <= secs <= CHRONO_MAX_SECS {
        Some((secs * 1_000_000 + nanos / 1000) as i64)
    } else {
        None
    }
}

/// `Utc.timestamp_opt(secs, nanos).single()`, as Unix microseconds:
/// `DateTime::from_timestamp` splits `secs` into days and seconds of the
/// day; it fails outside chrono's years (-262143 to 262142), on two
/// billion nanoseconds or more, and on a second billion outside the last
/// second of a minute. `timestamp_micros` gives `secs` seconds and
/// `nanos / 1000` microseconds.
#[verifier::external_body]
pub(crate) fn utc_timestamp_micros(secs: i64, nanos: u32) -> (r: Option<i64>)
    ensures
        r == chrono_timestamp_micros(secs, nanos),
{
    chrono::Utc.timestamp_opt(secs, nanos).single().map(|d| d.timestamp_micros())
}

/// The creation time of an imported account: the legacy time, split into
/// seconds and nanoseconds, as chrono reads it; `now` when chrono rejects it.
pub open spec fn legacy_created_spec(ms: i64, now: i64) -> i64 {
    match chrono_timestamp_micros(legacy_secs(ms as int) as i64, legacy_nanos(ms as int) as u32) {
        Some(m) => m,
        None => now,
    }
}

/// The creation time (Unix microseconds) of an imported account: the
/// legacy time when chrono accepts it, else `now`.
pub fn legacy_created_at(ms: i64, now: i64) -> (r: i64)
    ensures
        r == legacy_created_spec(ms, now),
        r == now || r == legacy_secs(ms as int) * 1_000_000 + legacy_nanos(ms as int) / 1000,
        legacy_nanos(ms as int) >= 2_000_000_000 ==> r == now,
        legacy_nanos(ms as int) < 1_000_000_000 && -8_000_000_000_000 <= legacy_secs(ms as int) <= 8_000_000_000_000
            ==> r == legacy_secs(ms as int) * 1_000_000 + legacy_nanos(ms as int) / 1000,
{
    let (secs, nanos) = legacy_time_parts(ms);
    match utc_timestamp_micros(secs, nanos) {
        Some(m) => m,
        None => now,
    }
}

/// A legacy account, ready to insert once its username is known to be free.
#[derive(Debug)]
pub struct LegacyImport {
    pub username: String,
    pub display_name: Option<String>,
    pub role: LegacyRole,
    pub color: Option<String>,
    /// Unix microseconds.
    pub created_at: i64,
}

/// How a legacy account is imported, or `None` (skipped) when its
/// username sanitizes to nothing.
pub fn plan_legacy_import(user: LegacyUser, now: i64) -> (r: Option<LegacyImport>)
    ensures
        sanitize_spec(user.username@).len() == 0 ==> r is None,
        sanitize_spec(user.username@).len() > 0 ==> (r matches Some(i)
            && i.username@ == sanitize_spec(user.username@)
            && (i.display_name is None <==> sanitize_spec(user.username@) == user.username@)
            && (i.display_name matches Some(d) ==> d@ == user.username@)
            && i.role == legacy_role_spec(user.is_admin, user.status@)
            && opt_string_view(i.color) == (match opt_string_view(user.color) {
                Some(c) => if c.len() == 0 { None } else { Some(c) },
                None => None,
            })
            && i.created_at == legacy_created_spec(user.created_at_ms, now)),
{
    let (username, display_name) = sanitize_username(user.username.as_str());
    if username.as_str().as_bytes().len() == 0 {
        proof {
            if username@.len() > 0 {
                assert(vstd::utf8::encode_utf8(username@) == vstd::utf8::encode_scalar(username@[0] as u32)
                    + vstd::utf8::encode_utf8(username@.drop_first()));
            }
        }
        return None;
    }
    proof {
        if username@.len() == 0 {
            assert(vstd::utf8::encode_utf8(username@).len() == 0);
        }
    }
    let role = legacy_role(user.is_admin, user.status.as_str());
    let color = legacy_color(user.color);
    let created_at = legacy_created_at(user.created_at_ms, now);
    Some(LegacyImport { username, display_name, role, color, created_at })
}

/// The Argon2 hash of a fresh random password of six ASCII letters and
/// digits, which nobody is told: imported accounts sign in after a reset.
pub fn legacy_password_hash() -> (r: Result<String, String>)
    ensures
        r matches Ok(h) && exists|p: Seq<char>| p.len() == 6 && alnum_text(p)
            && argon2_verify_result(p, h@) == Some(true),
{
    let password = random_alphanumeric(6);
    proof {
        lemma_utf8_len_at_most_four_per_char(password@);
    }
    let r = argon2_hash(password.as_str());
    proof {
        assert(password@.len() == 6 && alnum_text(password@));
    }
    r
}

} // verus!
