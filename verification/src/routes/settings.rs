//! Profile settings: the display name and the profile color.
use vstd::prelude::*;
use vstd::utf8::encode_utf8;
use crate::codec::{ascii_lower, ascii_lower_char, to_lowercase};
use crate::session::opt_string_view;
use crate::text::{from_chars, push_chars, str_eq, strip_prefix_chars, strip_prefix_spec, to_chars, trim, trim_str};

verus! {

/// The profile form.
#[derive(Debug)]
pub struct ProfileForm {
    pub display_name: String,
    pub color: String,
}

/// Longest display name, in bytes of UTF-8.
pub const MAX_DISPLAY_NAME_LEN: usize = 64;

/// Whether `c` is an ASCII hexadecimal digit.
pub open spec fn is_hex_digit(c: char) -> bool {
    ('0' <= c && c <= '9') || ('a' <= c && c <= 'f') || ('A' <= c && c <= 'F')
}

/// `s` without one leading `#`, if it has one.
pub open spec fn without_hash(s: Seq<char>) -> Seq<char> {
    match strip_prefix_spec(s, seq!['#']) {
        Some(t) => t,
        None => s,
    }
}

/// Whether `s` is a hex color: an optional `#`, then three or six
/// hexadecimal digits.
pub open spec fn hex_color_spec(s: Seq<char>) -> bool {
    let t = without_hash(s);
    (t.len() == 6 || t.len() == 3) && forall|i: int| 0 <= i < t.len() ==> is_hex_digit(#[trigger] t[i])
}

fn strip_hash(v: &Vec<char>) -> (r: Vec<char>)
    ensures
        r@ == without_hash(v@),
{
    let p: [char; 1] = ['#'];
    assert(p@ =~= seq!['#']);
    match strip_prefix_chars(v, &p) {
        Some(t) => t,
        None => {
            let mut c: Vec<char> = Vec::new();
            let mut i: usize = 0;
            while i < v.len()
                invariant
                    i <= v.len(),
                    c@ == v@.take(i as int),
                decreases v.len() - i,
            {
                c.push(v[i]);
                i += 1;
                assert(c@ =~= v@.take(i as int));
            }
            assert(v@.take(v@.len() as int) =~= v@);
            c
        },
    }
}

/// Whether `s` is a hex color such as `#ff6b6b` or `abc`.
pub fn is_valid_hex_color(s: &str) -> (r: bool)
    ensures
        r == hex_color_spec(s@),
{
    let t = strip_hash(&to_chars(s));
    if !(t.len() == 6 || t.len() == 3) {
        return false;
    }
    let mut i: usize = 0;
    while i < t.len()
        invariant
            i <= t@.len(),
            t@ == without_hash(s@),
            t@.len() == 6 || t@.len() == 3,
            forall|j: int| 0 <= j < i ==> is_hex_digit(#[trigger] t@[j]),
        decreases t@.len() - i,
    {
        let c = t[i];
        if !(('0' <= c && c <= '9') || ('a' <= c && c <= 'f') || ('A' <= c && c <= 'F')) {
            assert(!is_hex_digit(t@[i as int]));
            return false;
        }
        i += 1;
    }
    true
}

/// The stored form of an accepted color: `#` and the digits in lowercase.
pub open spec fn normal_color(s: Seq<char>) -> Seq<char> {
    seq!['#'] + ascii_lower(without_hash(s))
}

/// The stored form of an accepted color.
pub fn normalize_color(s: &str) -> (r: String)
    requires
        hex_color_spec(s@),
    ensures
        r@ == normal_color(s@),
{
    let t = from_chars(&strip_hash(&to_chars(s)));
    proof {
        assert forall|i: int| 0 <= i < t@.len() implies (#[trigger] t@[i] as u32) < 128 by {
            assert(is_hex_digit(t@[i]));
        }
    }
    let lower = to_lowercase(t.as_str());
    let mut r = from_chars(&to_chars("#"));
    push_chars(&mut r, &to_chars(lower.as_str()));
    proof {
        reveal_strlit("#");
    }
    r
}

/// The display name a form asks for: the trimmed text, or none when empty;
/// longer than 64 bytes is an error.
pub open spec fn display_name_spec(form_name: Seq<char>) -> Result<Option<Seq<char>>, Seq<char>> {
    let n = trim(form_name);
    if encode_utf8(n).len() > 64 {
        Err("Display name must be 64 characters or fewer."@)
    } else if n.len() == 0 {
        Ok(None)
    } else {
        Ok(Some(n))
    }
}

/// The color a form asks for: none when empty after trimming, else the
/// stored form of a valid hex color; anything else is an error.
pub open spec fn color_spec(form_color: Seq<char>) -> Result<Option<Seq<char>>, Seq<char>> {
    let c = trim(form_color);
    if c.len() == 0 {
        Ok(None)
    } else if !hex_color_spec(c) {
        Err("Color must be a valid hex value (e.g. #ff6b6b)."@)
    } else {
        Ok(Some(normal_color(c)))
    }
}

/// Whether `r` is the outcome `v`.
pub open spec fn outcome_is(r: Result<Option<String>, &'static str>, v: Result<Option<Seq<char>>, Seq<char>>) -> bool {
    match (r, v) {
        (Ok(a), Ok(b)) => opt_string_view(a) == b,
        (Err(m), Err(n)) => m@ == n,
        _ => false,
    }
}

/// The display name a form asks for.
pub fn requested_display_name(form: &ProfileForm) -> (r: Result<Option<String>, &'static str>)
    ensures
        outcome_is(r, display_name_spec(form.display_name@)),
{
    let n = trim_str(form.display_name.as_str());
    if n.as_str().as_bytes().len() > MAX_DISPLAY_NAME_LEN {
        return Err("Display name must be 64 characters or fewer.");
    }
    if n.as_str().as_bytes().len() == 0 {
        proof {
            if n@.len() > 0 {
                assert(encode_utf8(n@) == vstd::utf8::encode_scalar(n@[0] as u32) + encode_utf8(n@.drop_first()));
            }
        }
        return Ok(None);
    }
    proof {
        if n@.len() == 0 {
            assert(encode_utf8(n@).len() == 0);
        }
    }
    Ok(Some(n))
}

/// The color a form asks for.
pub fn requested_color(form: &ProfileForm) -> (r: Result<Option<String>, &'static str>)
    ensures
        outcome_is(r, color_spec(form.color@)),
{
    let c = trim_str(form.color.as_str());
    if c.as_str().as_bytes().len() == 0 {
        proof {
            if c@.len() > 0 {
                assert(encode_utf8(c@) == vstd::utf8::encode_scalar(c@[0] as u32) + encode_utf8(c@.drop_first()));
            }
        }
        return Ok(None);
    }
    proof {
        if c@.len() == 0 {
            assert(encode_utf8(c@).len() == 0);
        }
    }
    if !is_valid_hex_color(c.as_str()) {
        return Err("Color must be a valid hex value (e.g. #ff6b6b).");
    }
    Ok(Some(normalize_color(c.as_str())))
}

/// Whether two optional texts differ.
pub fn differs(a: &Option<String>, b: &Option<String>) -> (r: bool)
    ensures
        r == (opt_string_view(*a) != opt_string_view(*b)),
{
    match (a, b) {
        (Some(x), Some(y)) => !str_eq(x.as_str(), y.as_str()),
        (None, None) => false,
        _ => true,
    }
}

/// An accepted color is stored as `#` and six or three lowercase hex
/// digits, and is itself an accepted color that stores unchanged.
pub proof fn law_normal_color_is_stable(s: Seq<char>)
    requires
        hex_color_spec(s),
    ensures
        hex_color_spec(normal_color(s)),
        normal_color(normal_color(s)) == normal_color(s),
{
    let t = without_hash(s);
    let n = normal_color(s);
    let l = ascii_lower(t);
    assert(n[0] == '#');
    assert(strip_prefix_spec(n, seq!['#']) == Some(l)) by {
        assert(n.take(1) =~= seq!['#']);
        assert(n.skip(1) =~= l);
    }
    assert forall|i: int| 0 <= i < l.len() implies is_hex_digit(#[trigger] l[i]) by {
        assert(is_hex_digit(t[i]));
        assert(l[i] == ascii_lower_char(t[i]));
    }
    assert(ascii_lower(l) =~= l) by {
        assert forall|i: int| 0 <= i < l.len() implies ascii_lower(l)[i] == l[i] by {
            assert(is_hex_digit(t[i]));
        }
    }
}

} // verus!
