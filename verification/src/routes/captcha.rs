//! The CAPTCHA challenge: a random answer of six ASCII letters and digits,
//! of which the session keeps only the hash of its uppercase form.
use vstd::prelude::*;
use rand::Rng;
use crate::codec::{all_ascii, ascii_upper, ascii_upper_char, is_ascii_alnum, to_uppercase};
use crate::crypto::{sha256_hex, sha256_hex_of};
use crate::session::{data_view, get_spec, lookup, Session};
use crate::text::{is_ws, lemma_trim_no_edge_ws, push_char, trim};

verus! {

/// Session key under which the hash of the current answer is stored.
pub const CAPTCHA_SESSION_KEY: &'static str = "captcha_hash";

/// Number of characters in an answer.
pub const CAPTCHA_LEN: usize = 6;

/// Whether every character of `s` is an ASCII letter or digit.
pub open spec fn alnum_text(s: Seq<char>) -> bool {
    forall|i: int| 0 <= i < s.len() ==> is_ascii_alnum(#[trigger] s[i])
}

/// What the session stores for the answer `answer`: the hex SHA-256 of its
/// uppercase form.
pub open spec fn challenge_hash(answer: Seq<char>) -> Seq<char> {
    sha256_hex(ascii_upper(answer))
}

/// `rng.sample(Alphanumeric)` on the thread-local generator, as a `char`:
/// one of the 62 ASCII letters and digits, drawn at random.
#[verifier::external_body]
pub(crate) fn sample_alphanumeric() -> (r: char)
    ensures
        is_ascii_alnum(r),
{
    rand::thread_rng().sample(rand::distributions::Alphanumeric) as char
}

/// `n` random ASCII letters and digits.
pub fn random_alphanumeric(n: usize) -> (r: String)
    ensures
        r@.len() == n,
        alnum_text(r@),
{
    let mut r = String::new();
    let mut k: usize = 0;
    while k < n
        invariant
            k <= n,
            r@.len() == k,
            alnum_text(r@),
        decreases n - k,
    {
        let c = sample_alphanumeric();
        let ghost before = r@;
        push_char(&mut r, c);
        assert(r@ == before.push(c));
        k += 1;
    }
    r
}

proof fn lemma_alnum_ascii(s: Seq<char>)
    requires
        alnum_text(s),
    ensures
        all_ascii(s),
        alnum_text(ascii_upper(s)),
{
    assert forall|i: int| 0 <= i < s.len() implies (#[trigger] s[i] as u32) < 128 by {
        assert(is_ascii_alnum(s[i]));
    }
    let u = ascii_upper(s);
    assert forall|i: int| 0 <= i < u.len() implies is_ascii_alnum(#[trigger] u[i]) by {
        assert(is_ascii_alnum(s[i]));
        assert(u[i] == ascii_upper_char(s[i]));
    }
}

/// Starts a challenge: draws a fresh answer, to be drawn as an image, and
/// stores the hash of its uppercase form in the session. Every other
/// session entry is kept.
pub fn new_challenge(session: &mut Session) -> (answer: String)
    ensures
        answer@.len() == CAPTCHA_LEN,
        alnum_text(answer@),
        get_spec(data_view(final(session).data@), "captcha_hash"@) == Some(challenge_hash(answer@)),
        forall|other: Seq<char>| other != "captcha_hash"@ ==> lookup(data_view(final(session).data@), other)
            == lookup(data_view(old(session).data@), other),
        final(session).id == old(session).id,
        final(session).user_id == old(session).user_id,
        final(session).remember == old(session).remember,
        final(session).dirty,
{
    let answer = random_alphanumeric(CAPTCHA_LEN);
    proof {
        lemma_alnum_ascii(answer@);
    }
    let upper = to_uppercase(answer.as_str());
    let hash = sha256_hex_of(upper.as_str());
    session.insert(CAPTCHA_SESSION_KEY, hash.as_str());
    proof {
        reveal_strlit("captcha_hash");
    }
    answer
}

/// The answer of a challenge is accepted however its letters are cased and
/// whatever whitespace surrounds it: an input whose trimmed form is ASCII
/// and matches the answer up to letter case hashes, trimmed and
/// uppercased, to what the challenge stored.
pub proof fn law_challenge_answer_accepted(answer: Seq<char>, input: Seq<char>)
    requires
        alnum_text(answer),
        all_ascii(trim(input)),
        ascii_upper(trim(input)) == ascii_upper(answer),
    ensures
        sha256_hex(trim(ascii_upper(trim(input)))) == challenge_hash(answer),
{
    lemma_alnum_ascii(answer);
    let u = ascii_upper(answer);
    if u.len() > 0 {
        assert(is_ascii_alnum(u[0]));
        assert(is_ascii_alnum(u.last()));
        assert(!is_ws(u[0]));
        assert(!is_ws(u.last()));
    }
    lemma_trim_no_edge_ws(u);
}

} // verus!
