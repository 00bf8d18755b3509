//! Hashing, hex encoding, randomness and password hashing, as the
//! `sha2`, `hex`, `rand_core` and `argon2` crates provide them.
use vstd::prelude::*;
use argon2::password_hash::rand_core::RngCore;
use argon2::{PasswordHasher, PasswordVerifier};
use sha2::Digest;

verus! {

/// The SHA-256 digest of `data`.
pub uninterp spec fn sha256(data: Seq<u8>) -> Seq<u8>;

/// The outcome of checking `password` against the PHC string `phc` with
/// Argon2: `None` when `phc` is not a well-formed password hash, else
/// whether the password matches.
pub uninterp spec fn argon2_verify_result(password: Seq<char>, phc: Seq<char>) -> Option<bool>;

/// The lowercase hexadecimal digits.
pub open spec fn lower_hex_digits() -> Seq<char> {
    seq!['0', '1', '2', '3', '4', '5', '6', '7', '8', '9', 'a', 'b', 'c', 'd', 'e', 'f']
}

/// Lowercase hexadecimal text of `bytes`: two digits per byte, high nibble first.
pub open spec fn hex_lower(bytes: Seq<u8>) -> Seq<char> {
    Seq::new(
        (2 * bytes.len()) as nat,
        |i: int|
            if i % 2 == 0 {
                lower_hex_digits()[(bytes[i / 2] / 16) as int]
            } else {
                lower_hex_digits()[(bytes[i / 2] % 16) as int]
            },
    )
}

/// Whether every character of `s` is a lowercase hexadecimal digit.
pub open spec fn is_lower_hex(s: Seq<char>) -> bool {
    forall|i: int| 0 <= i < s.len() ==> lower_hex_digits().contains(#[trigger] s[i])
}

pub proof fn lemma_hex_lower_is_lower_hex(bytes: Seq<u8>)
    ensures
        hex_lower(bytes).len() == 2 * bytes.len(),
        is_lower_hex(hex_lower(bytes)),
{
    let h = hex_lower(bytes);
    assert forall|i: int| 0 <= i < h.len() implies lower_hex_digits().contains(#[trigger] h[i]) by {
        let k: int = if i % 2 == 0 {
            (bytes[i / 2] / 16) as int
        } else {
            (bytes[i / 2] % 16) as int
        };
        assert(0 <= k < 16);
        assert(lower_hex_digits()[k] == h[i]);
    }
}

/// `sha2::Sha256::digest`: the digest is a function of the input alone
/// and is 32 bytes long.
#[verifier::external_body]
pub(crate) fn sha256_digest(data: &[u8]) -> (r: Vec<u8>)
    ensures
        r@ == sha256(data@),
        r@.len() == 32,
{
    sha2::Sha256::digest(data).to_vec()
}

/// `hex::encode`: lowercase hexadecimal text, two digits per byte.
#[verifier::external_body]
pub(crate) fn hex_encode(data: &[u8]) -> (r: String)
    ensures
        r@ == hex_lower(data@),
{
    hex::encode(data)
}

/// `OsRng::fill_bytes` on a buffer of `n` bytes: `n` bytes from the
/// operating system's generator. Nothing is claimed of their values.
#[verifier::external_body]
pub(crate) fn random_bytes(n: usize) -> (r: Vec<u8>)
    ensures
        r@.len() == n,
{
    let mut raw = vec![0u8; n];
    argon2::password_hash::rand_core::OsRng.fill_bytes(&mut raw);
    raw
}

/// `PasswordHash::new` followed by `Argon2::default().verify_password`:
/// `None` when the PHC string does not parse, otherwise whether the
/// password verifies. The outcome depends on the two strings alone.
#[verifier::external_body]
pub(crate) fn argon2_verify(password: &str, phc: &str) -> (r: Option<bool>)
    ensures
        r == argon2_verify_result(password@, phc@),
{
    match argon2::PasswordHash::new(phc) {
        Ok(parsed) => Some(
            argon2::Argon2::default().verify_password(password.as_bytes(), &parsed).is_ok(),
        ),
        Err(_) => None,
    }
}

/// A character takes at most four bytes in UTF-8.
pub proof fn lemma_utf8_len_at_most_four_per_char(s: Seq<char>)
    ensures
        vstd::utf8::encode_utf8(s).len() <= 4 * s.len(),
    decreases s.len(),
{
    if s.len() > 0 {
        lemma_utf8_len_at_most_four_per_char(s.drop_first());
    }
}

/// `Argon2::default().hash_password` with a fresh random salt from
/// `OsRng`, as a PHC string, or the error's text. The generated salt and
/// the default parameters always pass the crate's input checks, so the
/// call fails exactly when the password is longer than `MAX_PWD_LEN`
/// (`0xFFFF_FFFF` bytes). The salt is random, so nothing is claimed of
/// the text itself; a hash it returns verifies the same password.
#[verifier::external_body]
pub(crate) fn argon2_hash(password: &str) -> (r: Result<String, String>)
    ensures
        r is Ok <==> vstd::utf8::encode_utf8(password@).len() <= 0xFFFF_FFFF,
        r matches Ok(h) ==> argon2_verify_result(password@, h@) == Some(true),
{
    let salt = argon2::password_hash::SaltString::generate(
        &mut argon2::password_hash::rand_core::OsRng,
    );
    match argon2::Argon2::default().hash_password(password.as_bytes(), &salt) {
        Ok(h) => Ok(h.to_string()),
        Err(e) => Err(e.to_string()),
    }
}

/// Lowercase hexadecimal text of the SHA-256 digest of the UTF-8 bytes of `s`.
pub open spec fn sha256_hex(s: Seq<char>) -> Seq<char> {
    hex_lower(sha256(vstd::utf8::encode_utf8(s)))
}

/// Lowercase hexadecimal SHA-256 digest of the UTF-8 bytes of `s`.
pub fn sha256_hex_of(s: &str) -> (r: String)
    ensures
        r@ == sha256_hex(s@),
        r@.len() == 64,
        is_lower_hex(r@),
{
    let d = sha256_digest(s.as_bytes());
    proof {
        lemma_hex_lower_is_lower_hex(d@);
    }
    hex_encode(&d)
}

} // verus!
