//! Opaque OAuth tokens and authorization codes: generation, the stored
//! hash of a token, and expiry times (Unix microseconds).
use vstd::prelude::*;
use crate::crypto::{
    hex_encode, is_lower_hex, lemma_hex_lower_is_lower_hex, random_bytes, sha256_hex,
    sha256_hex_of,
};

verus! {

/// Lifetime of an access token, in minutes.
pub const ACCESS_TOKEN_TTL_MINUTES: i64 = 15;

/// Lifetime of a refresh token, in days.
pub const REFRESH_TOKEN_TTL_DAYS: i64 = 30;

/// Lifetime of an authorization code, in minutes.
pub const AUTH_CODE_TTL_MINUTES: i64 = 10;

/// Largest Unix time, in seconds, that the clock can report.
pub const MAX_CLOCK_SECS: i64 = 9_000_000_000_000;

/// The hash under which a token is stored: lowercase hex SHA-256 of its UTF-8 bytes.
pub open spec fn token_hash(token: Seq<char>) -> Seq<char> {
    sha256_hex(token)
}

/// `chrono::Utc::now().timestamp_micros()`: the current Unix time in
/// microseconds. `Utc::now` fails on a clock before the epoch and only
/// returns times that `DateTime` can hold (years up to 262142), so the
/// value is non-negative and below `MAX_CLOCK_MICROS`; nothing else
/// is claimed of it.
#[verifier::external_body]
pub(crate) fn utc_now_micros() -> (r: i64)
    ensures
        0 <= r < MAX_CLOCK_MICROS,
{
    chrono::Utc::now().timestamp_micros()
}

/// The hash under which `token` is stored.
pub fn hash(token: &str) -> (r: String)
    ensures
        r@ == token_hash(token@),
{
    sha256_hex_of(token)
}

/// A fresh random token (64 lowercase hex digits from 32 random bytes)
/// and the hash under which it is stored.
pub fn generate() -> (r: (String, String))
    ensures
        r.1@ == token_hash(r.0@),
        r.0@.len() == 64,
        is_lower_hex(r.0@),
{
    let raw = random_bytes(32);
    proof {
        lemma_hex_lower_is_lower_hex(raw@);
    }
    let token = hex_encode(&raw);
    let h = hash(token.as_str());
    (token, h)
}

/// Largest Unix time, in microseconds, that the clock can report.
pub const MAX_CLOCK_MICROS: i64 = 9_000_000_000_000_000_000;

/// Microseconds in a second.
pub const MICROS_PER_SEC: i64 = 1_000_000;

/// The instant `secs` seconds after `now` (both instants in Unix microseconds).
pub fn expiry_after(now: i64, secs: i64) -> (r: i64)
    requires
        0 <= now < MAX_CLOCK_MICROS,
        0 <= secs <= 100_000_000,
    ensures
        r == now + secs * MICROS_PER_SEC,
{
    now + secs * MICROS_PER_SEC
}

/// Expiry (Unix microseconds) of an access token issued at `now`: fifteen minutes later.
pub fn access_token_expiry_at(now: i64) -> (r: i64)
    requires
        0 <= now < MAX_CLOCK_MICROS,
    ensures
        r == now + ACCESS_TOKEN_TTL_MINUTES * 60 * MICROS_PER_SEC,
{
    expiry_after(now, ACCESS_TOKEN_TTL_MINUTES * 60)
}

/// Expiry (Unix microseconds) of a refresh token issued at `now`: thirty days later.
pub fn refresh_token_expiry_at(now: i64) -> (r: i64)
    requires
        0 <= now < MAX_CLOCK_MICROS,
    ensures
        r == now + REFRESH_TOKEN_TTL_DAYS * 24 * 3600 * MICROS_PER_SEC,
{
    expiry_after(now, REFRESH_TOKEN_TTL_DAYS * 24 * 3600)
}

/// Expiry (Unix microseconds) of an authorization code issued at `now`: ten minutes later.
pub fn auth_code_expiry_at(now: i64) -> (r: i64)
    requires
        0 <= now < MAX_CLOCK_MICROS,
    ensures
        r == now + AUTH_CODE_TTL_MINUTES * 60 * MICROS_PER_SEC,
{
    expiry_after(now, AUTH_CODE_TTL_MINUTES * 60)
}

/// Expiry of an access token issued now: fifteen minutes after the clock's reading.
pub fn access_token_expiry() -> (r: i64)
    ensures
        ACCESS_TOKEN_TTL_MINUTES * 60 * MICROS_PER_SEC <= r < MAX_CLOCK_MICROS + ACCESS_TOKEN_TTL_MINUTES * 60 * MICROS_PER_SEC,
{
    let now = now_micros();
    access_token_expiry_at(now)
}

/// Expiry of a refresh token issued now: thirty days after the clock's reading.
pub fn refresh_token_expiry() -> (r: i64)
    ensures
        REFRESH_TOKEN_TTL_DAYS * 24 * 3600 * MICROS_PER_SEC <= r < MAX_CLOCK_MICROS + REFRESH_TOKEN_TTL_DAYS * 24 * 3600 * MICROS_PER_SEC,
{
    let now = now_micros();
    refresh_token_expiry_at(now)
}

/// Expiry of an authorization code issued now: ten minutes after the clock's reading.
pub fn auth_code_expiry() -> (r: i64)
    ensures
        AUTH_CODE_TTL_MINUTES * 60 * MICROS_PER_SEC <= r < MAX_CLOCK_MICROS + AUTH_CODE_TTL_MINUTES * 60 * MICROS_PER_SEC,
{
    let now = now_micros();
    auth_code_expiry_at(now)
}

/// The current Unix time in seconds, as the clock reports it.
pub fn now_secs() -> (r: i64)
    ensures
        0 <= r < MAX_CLOCK_SECS,
{
    utc_now_micros() / 1_000_000
}

/// The current Unix time in microseconds, as the clock reports it.
pub fn now_micros() -> (r: i64)
    ensures
        0 <= r < MAX_CLOCK_MICROS,
{
    utc_now_micros()
}

} // verus!
