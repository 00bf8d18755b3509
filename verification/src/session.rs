//! Server-side sessions: the key-value data a session holds, when it must
//! be written back and for how long, and the cookies that carry its id.
use vstd::prelude::*;
use crate::codec::{new_uuid_v4, uuid_text, uuid_to_text};
use crate::text::{
    chars_eq, find_char, from_chars, is_ws, lemma_first_index, lemma_split_char_absent,
    lemma_split_once_at, lemma_trim_no_edge_ws, push_str, split_char, split_once, str_eq, sub_chars,
    to_chars, trim, trim_chars, chars_from,
};

verus! {

/// Name of the cookie that carries the session id.
pub const COOKIE_NAME: &'static str = "sid";

/// Name of the cookie that asks for a long-lived session.
pub const REMEMBER_COOKIE_NAME: &'static str = "remember";

/// Lifetime of an ordinary session, in seconds (two hours).
pub const SESSION_TTL_SECS: i64 = 7200;

/// Lifetime of a remembered session, in seconds (thirty days).
pub const REMEMBER_TTL_SECS: i64 = 2592000;

/// A remembered session whose remaining lifetime falls below this many
/// seconds (80% of `REMEMBER_TTL_SECS`) is renewed when loaded.
pub const REMEMBER_REFRESH_BELOW_SECS: i64 = 2073600;

/// A value stored in a session: text, or any other JSON value kept as its
/// JSON text.
#[derive(Debug)]
pub enum SessionValue {
    Text(String),
    Json(String),
}

/// Abstract value of a session value: whether it is text, and its characters.
pub open spec fn value_view(v: SessionValue) -> (bool, Seq<char>) {
    match v {
        SessionValue::Text(s) => (true, s@),
        SessionValue::Json(s) => (false, s@),
    }
}

/// Abstract value of session data: the entries in order.
pub open spec fn data_view(d: Seq<(String, SessionValue)>) -> Seq<(Seq<char>, (bool, Seq<char>))> {
    d.map_values(|e: (String, SessionValue)| (e.0@, value_view(e.1)))
}

/// The value stored under `key`: that of the first entry with this key.
pub open spec fn lookup(d: Seq<(Seq<char>, (bool, Seq<char>))>, key: Seq<char>) -> Option<(bool, Seq<char>)>
    decreases d.len(),
{
    if d.len() == 0 {
        None
    } else if d[0].0 == key {
        Some(d[0].1)
    } else {
        lookup(d.drop_first(), key)
    }
}

/// A server-side session.
#[derive(Debug)]
pub struct Session {
    pub id: String,
    pub data: Vec<(String, SessionValue)>,
    pub remember: bool,
    pub user_id: Option<u128>,
    pub is_new: bool,
    pub dirty: bool,
}

/// The text stored under `key`, if the value there is text.
pub open spec fn get_spec(d: Seq<(Seq<char>, (bool, Seq<char>))>, key: Seq<char>) -> Option<Seq<char>> {
    match lookup(d, key) {
        Some((true, s)) => Some(s),
        _ => None,
    }
}

/// The view of an optional string.
pub open spec fn opt_string_view(o: Option<String>) -> Option<Seq<char>> {
    match o {
        Some(s) => Some(s@),
        None => None,
    }
}

fn copy_string(s: &str) -> (r: String)
    ensures
        r@ == s@,
{
    from_chars(&to_chars(s))
}

proof fn lemma_lookup_index(d: Seq<(Seq<char>, (bool, Seq<char>))>, key: Seq<char>, i: int)
    requires
        0 <= i < d.len(),
        d[i].0 == key,
        forall|j: int| 0 <= j < i ==> d[j].0 != key,
    ensures
        lookup(d, key) == Some(d[i].1),
    decreases i,
{
    if i > 0 {
        lemma_lookup_index(d.drop_first(), key, i - 1);
    }
}

proof fn lemma_lookup_absent(d: Seq<(Seq<char>, (bool, Seq<char>))>, key: Seq<char>)
    requires
        forall|j: int| 0 <= j < d.len() ==> d[j].0 != key,
    ensures
        lookup(d, key) is None,
    decreases d.len(),
{
    if d.len() > 0 {
        lemma_lookup_absent(d.drop_first(), key);
    }
}

proof fn lemma_lookup_update(d: Seq<(Seq<char>, (bool, Seq<char>))>, i: int, key: Seq<char>, v: (bool, Seq<char>), other: Seq<char>)
    requires
        0 <= i < d.len(),
        d[i].0 == key,
        forall|j: int| 0 <= j < i ==> d[j].0 != key,
    ensures
        lookup(d.update(i, (key, v)), key) == Some(v),
        other != key ==> lookup(d.update(i, (key, v)), other) == lookup(d, other),
    decreases i,
{
    let u = d.update(i, (key, v));
    if i == 0 {
        assert(u.drop_first() =~= d.drop_first());
    } else {
        lemma_lookup_update(d.drop_first(), i - 1, key, v, other);
        assert(u.drop_first() =~= d.drop_first().update(i - 1, (key, v)));
    }
}

proof fn lemma_lookup_push(d: Seq<(Seq<char>, (bool, Seq<char>))>, key: Seq<char>, v: (bool, Seq<char>), other: Seq<char>)
    requires
        forall|j: int| 0 <= j < d.len() ==> d[j].0 != key,
    ensures
        lookup(d.push((key, v)), key) == Some(v),
        other != key ==> lookup(d.push((key, v)), other) == lookup(d, other),
    decreases d.len(),
{
    if d.len() == 0 {
        assert(d.push((key, v)) =~= seq![(key, v)]);
        assert(d.push((key, v)).drop_first() =~= Seq::<(Seq<char>, (bool, Seq<char>))>::empty());
    } else {
        assert(d.push((key, v))[0] == d[0]);
        lemma_lookup_push(d.drop_first(), key, v, other);
        assert(d.push((key, v)).drop_first() =~= d.drop_first().push((key, v)));
    }
}

impl Session {
    /// Whether the session was created by this request rather than loaded.
    pub fn is_new(&self) -> (r: bool)
        ensures
            r == self.is_new,
    {
        self.is_new
    }

    /// Position of the first entry under `key`.
    fn position(&self, key: &str) -> (r: Option<usize>)
        ensures
            match r {
                Some(i) => i < self.data@.len() && data_view(self.data@)[i as int].0 == key@
                    && forall|j: int| 0 <= j < i ==> data_view(self.data@)[j].0 != key@,
                None => forall|j: int| 0 <= j < self.data@.len() ==> data_view(self.data@)[j].0 != key@,
            },
    {
        let mut i: usize = 0;
        while i < self.data.len()
            invariant
                i <= self.data@.len(),
                forall|j: int| 0 <= j < i ==> data_view(self.data@)[j].0 != key@,
            decreases self.data@.len() - i,
        {
            if str_eq(self.data[i].0.as_str(), key) {
                return Some(i);
            }
            i += 1;
        }
        None
    }

    /// The text stored under `key`; `None` when nothing or a non-text value is there.
    pub fn get(&self, key: &str) -> (r: Option<String>)
        ensures
            opt_string_view(r) == get_spec(data_view(self.data@), key@),
    {
        match self.position(key) {
            Some(i) => {
                proof {
                    lemma_lookup_index(data_view(self.data@), key@, i as int);
                }
                match &self.data[i].1 {
                    SessionValue::Text(s) => Some(copy_string(s.as_str())),
                    SessionValue::Json(_) => None,
                }
            },
            None => {
                proof {
                    lemma_lookup_absent(data_view(self.data@), key@);
                }
                None
            },
        }
    }

    /// Stores the text `value` under `key` and marks the session changed.
    pub fn insert(&mut self, key: &str, value: &str)
        ensures
            lookup(data_view(final(self).data@), key@) == Some((true, value@)),
            forall|other: Seq<char>| other != key@ ==> lookup(data_view(final(self).data@), other) == lookup(data_view(old(self).data@), other),
            final(self).dirty,
            final(self).id == old(self).id,
            final(self).remember == old(self).remember,
            final(self).user_id == old(self).user_id,
            final(self).is_new == old(self).is_new,
    {
        let ghost d = data_view(self.data@);
        let entry = (copy_string(key), SessionValue::Text(copy_string(value)));
        let ghost ev = (key@, (true, value@));
        match self.position(key) {
            Some(i) => {
                self.data.set(i, entry);
                proof {
                    assert(data_view(self.data@) =~= d.update(i as int, ev));
                    assert forall|other: Seq<char>| other != key@ implies lookup(data_view(self.data@), other) == lookup(d, other) by {
                        lemma_lookup_update(d, i as int, key@, ev.1, other);
                    }
                    lemma_lookup_update(d, i as int, key@, ev.1, key@);
                }
            },
            None => {
                self.data.push(entry);
                proof {
                    assert(data_view(self.data@) =~= d.push(ev));
                    assert forall|other: Seq<char>| other != key@ implies lookup(data_view(self.data@), other) == lookup(d, other) by {
                        lemma_lookup_push(d, key@, ev.1, other);
                    }
                    lemma_lookup_push(d, key@, ev.1, key@);
                }
            },
        }
        self.dirty = true;
    }

    /// Removes what is stored under `key`; the session counts as changed
    /// only when something was there.
    pub fn remove(&mut self, key: &str)
        ensures
            lookup(data_view(final(self).data@), key@) is None,
            forall|other: Seq<char>| other != key@ ==> lookup(data_view(final(self).data@), other) == lookup(data_view(old(self).data@), other),
            final(self).dirty == (old(self).dirty || lookup(data_view(old(self).data@), key@) is Some),
            final(self).id == old(self).id,
            final(self).remember == old(self).remember,
            final(self).user_id == old(self).user_id,
            final(self).is_new == old(self).is_new,
    {
        let ghost d0 = data_view(self.data@);
        let mut found = false;
        loop
            invariant
                forall|other: Seq<char>| other != key@ ==> lookup(data_view(self.data@), other) == lookup(d0, other),
                !found ==> data_view(self.data@) == d0,
                found ==> lookup(d0, key@) is Some,
                self.id == old(self).id,
                self.remember == old(self).remember,
                self.user_id == old(self).user_id,
                self.is_new == old(self).is_new,
                self.dirty == old(self).dirty,
            ensures
                lookup(data_view(self.data@), key@) is None,
                forall|other: Seq<char>| other != key@ ==> lookup(data_view(self.data@), other) == lookup(d0, other),
                found == (lookup(d0, key@) is Some),
                self.id == old(self).id,
                self.remember == old(self).remember,
                self.user_id == old(self).user_id,
                self.is_new == old(self).is_new,
                self.dirty == old(self).dirty,
            decreases self.data@.len(),
        {
            match self.position(key) {
                Some(i) => {
                    let ghost d = data_view(self.data@);
                    proof {
                        lemma_lookup_index(d, key@, i as int);
                    }
                    let _removed = self.data.remove(i);
                    proof {
                        assert(data_view(self.data@) =~= d.remove(i as int));
                        assert forall|other: Seq<char>| other != key@ implies lookup(data_view(self.data@), other) == lookup(d, other) by {
                            lemma_lookup_remove(d, i as int, key@, other);
                        }
                    }
                    found = true;
                },
                None => {
                    proof {
                        lemma_lookup_absent(data_view(self.data@), key@);
                    }
                    break;
                },
            }
        }
        if found {
            self.dirty = true;
        }
    }
}

proof fn lemma_lookup_remove(d: Seq<(Seq<char>, (bool, Seq<char>))>, i: int, key: Seq<char>, other: Seq<char>)
    requires
        0 <= i < d.len(),
        d[i].0 == key,
        other != key,
    ensures
        lookup(d.remove(i), other) == lookup(d, other),
    decreases i,
{
    if i == 0 {
        assert(d.remove(0) =~= d.drop_first());
    } else {
        lemma_lookup_remove(d.drop_first(), i - 1, key, other);
        assert(d.remove(i).drop_first() =~= d.drop_first().remove(i - 1));
        assert(d.remove(i)[0] == d[0]);
    }
}

/// Whether `s` can stand as a cookie value that `extract_cookie` reads
/// back unchanged: non-empty, without whitespace, `;` or `=`.
pub open spec fn plain_cookie_value(s: Seq<char>) -> bool {
    s.len() > 0 && forall|i: int| 0 <= i < s.len() ==> !is_ws(#[trigger] s[i]) && s[i] != ';' && s[i] != '='
}

proof fn lemma_uuid_text_plain(u: u128)
    ensures
        plain_cookie_value(uuid_text(u)),
{
    let t = uuid_text(u);
    let h = crate::codec::hex32(u);
    assert forall|i: int| 0 <= i < h.len() implies crate::crypto::lower_hex_digits().contains(#[trigger] h[i]) by {
        let n = (u as int / vstd::arithmetic::power::pow(16, (31 - i) as nat)) % 16;
        assert(0 <= n < 16);
        assert(crate::crypto::lower_hex_digits()[n] == h[i]);
    }
    assert forall|i: int| 0 <= i < t.len() implies !is_ws(#[trigger] t[i]) && t[i] != ';' && t[i] != '=' by {
        if t[i] != '-' {
            assert(crate::crypto::lower_hex_digits().contains(t[i])) by {
                if i < 8 { assert(t[i] == h[i]); }
                else if 9 <= i < 13 { assert(t[i] == h[i - 1]); }
                else if 14 <= i < 18 { assert(t[i] == h[i - 2]); }
                else if 19 <= i < 23 { assert(t[i] == h[i - 3]); }
                else { assert(t[i] == h[i - 4]); }
            }
            let k = choose|k: int| 0 <= k < 16 && crate::crypto::lower_hex_digits()[k] == t[i];
        }
    }
}

/// The `Set-Cookie` value carrying the session id `id`.
pub open spec fn session_cookie(id: Seq<char>, secure: bool) -> Seq<char> {
    "sid="@ + id + "; HttpOnly; SameSite=Lax; Path=/"@ + (if secure { "; Secure"@ } else { ""@ })
}

/// The `Set-Cookie` value asking for a long-lived session.
pub open spec fn remember_cookie(secure: bool) -> Seq<char> {
    "remember=1; HttpOnly; SameSite=Lax; Path=/; Max-Age=2592000"@ + (if secure { "; Secure"@ } else { ""@ })
}

impl Session {
    /// A new, empty session under a fresh random id, not yet stored.
    pub fn create(remember: bool) -> (r: Session)
        ensures
            plain_cookie_value(r.id@),
            exists|u: u128| r.id@ == uuid_text(u),
            r.data@.len() == 0,
            r.remember == remember,
            r.user_id is None,
            r.is_new,
            !r.dirty,
    {
        let u = new_uuid_v4();
        let id = uuid_to_text(u);
        proof {
            lemma_uuid_text_plain(u);
        }
        Session { id, data: Vec::new(), remember, user_id: None, is_new: true, dirty: false }
    }

    /// A stored session, loaded at time `now`: a remembered session whose
    /// remaining lifetime is below `REMEMBER_REFRESH_BELOW_SECS` is marked
    /// changed so that saving it renews its lifetime.
    pub fn restore(
        id: String,
        data: Vec<(String, SessionValue)>,
        user_id: Option<u128>,
        remember: bool,
        expires_at: i64,
        now: i64,
    ) -> (r: Session)
        ensures
            r.id == id,
            r.data == data,
            r.user_id == user_id,
            r.remember == remember,
            !r.is_new,
            r.dirty == (remember && expires_at - now < REMEMBER_REFRESH_BELOW_SECS),
    {
        let remaining: i128 = expires_at as i128 - now as i128;
        let renew = remember && remaining < REMEMBER_REFRESH_BELOW_SECS as i128;
        Session { id, data, remember, user_id, is_new: false, dirty: renew }
    }

    /// The session that a request carries: the stored one when the store
    /// returned it, else a new one.
    pub fn load_or_create(
        stored: Option<(String, Vec<(String, SessionValue)>, Option<u128>, i64)>,
        remember: bool,
        now: i64,
    ) -> (r: Session)
        ensures
            match stored {
                Some(row) => r.id == row.0 && r.data == row.1 && r.user_id == row.2 && !r.is_new
                    && r.dirty == (remember && row.3 - now < REMEMBER_REFRESH_BELOW_SECS),
                None => r.is_new && !r.dirty && r.data@.len() == 0 && r.user_id is None
                    && plain_cookie_value(r.id@) && exists|u: u128| r.id@ == uuid_text(u),
            },
            r.remember == remember,
    {
        match stored {
            Some((id, data, user_id, expires_at)) => Session::restore(id, data, user_id, remember, expires_at, now),
            None => Session::create(remember),
        }
    }

    /// How long the session is kept when saved: `None` when there is
    /// nothing to write (neither new nor changed), else the lifetime.
    pub fn save_ttl(&self) -> (r: Option<i64>)
        ensures
            r is None <==> (!self.dirty && !self.is_new),
            r matches Some(t) ==> t == (if self.remember { REMEMBER_TTL_SECS } else { SESSION_TTL_SECS }),
    {
        if !self.dirty && !self.is_new {
            return None;
        }
        if self.remember {
            Some(REMEMBER_TTL_SECS)
        } else {
            Some(SESSION_TTL_SECS)
        }
    }

    /// Moves the session to a fresh id, as after a login. Returns the old
    /// id, whose stored row is to be deleted; the session is new and
    /// changed, so it is saved under the fresh id.
    pub fn regenerate(&mut self) -> (old_id: String)
        ensures
            old_id == old(self).id,
            plain_cookie_value(final(self).id@),
            exists|u: u128| final(self).id@ == uuid_text(u),
            final(self).data == old(self).data,
            final(self).user_id == old(self).user_id,
            final(self).remember == old(self).remember,
            final(self).is_new,
            final(self).dirty,
    {
        let u = new_uuid_v4();
        let fresh = uuid_to_text(u);
        proof {
            lemma_uuid_text_plain(u);
        }
        let mut old_id = fresh;
        std::mem::swap(&mut old_id, &mut self.id);
        self.is_new = true;
        self.dirty = true;
        old_id
    }

    /// The `Set-Cookie` value carrying the session id.
    pub fn cookie_header(&self, secure: bool) -> (r: String)
        ensures
            r@ == session_cookie(self.id@, secure),
    {
        let mut r = String::new();
        push_str(&mut r, "sid=");
        push_str(&mut r, self.id.as_str());
        push_str(&mut r, "; HttpOnly; SameSite=Lax; Path=/");
        if secure {
            push_str(&mut r, "; Secure");
        } else {
            push_str(&mut r, "");
        }
        r
    }

    /// The `Set-Cookie` value asking for a long-lived session.
    pub fn remember_cookie_header(&self, secure: bool) -> (r: String)
        ensures
            r@ == remember_cookie(secure),
    {
        let mut r = String::new();
        push_str(&mut r, "remember=1; HttpOnly; SameSite=Lax; Path=/; Max-Age=2592000");
        if secure {
            push_str(&mut r, "; Secure");
        } else {
            push_str(&mut r, "");
        }
        r
    }
}

/// When a session saved at `now` with lifetime `ttl` expires.
pub fn save_expiry(now: i64, ttl: i64) -> (r: i64)
    requires
        0 <= ttl,
        now <= i64::MAX - ttl,
    ensures
        r == now + ttl,
{
    now + ttl
}

/// The two `Set-Cookie` values that clear the session and remember cookies.
pub fn clear_cookies(secure: bool) -> (r: (String, String))
    ensures
        r.0@ == "sid=; HttpOnly; SameSite=Lax; Path=/; Max-Age=0"@ + (if secure { "; Secure"@ } else { ""@ }),
        r.1@ == "remember=; HttpOnly; SameSite=Lax; Path=/; Max-Age=0"@ + (if secure { "; Secure"@ } else { ""@ }),
{
    let mut a = String::new();
    push_str(&mut a, "sid=; HttpOnly; SameSite=Lax; Path=/; Max-Age=0");
    let mut b = String::new();
    push_str(&mut b, "remember=; HttpOnly; SameSite=Lax; Path=/; Max-Age=0");
    if secure {
        push_str(&mut a, "; Secure");
        push_str(&mut b, "; Secure");
    } else {
        push_str(&mut a, "");
        push_str(&mut b, "");
    }
    (a, b)
}

/// The value of the first `name=value` piece among `parts` whose trimmed
/// name is `name`, trimmed.
pub open spec fn cookie_in_parts(parts: Seq<Seq<char>>, name: Seq<char>) -> Option<Seq<char>>
    decreases parts.len(),
{
    if parts.len() == 0 {
        None
    } else {
        match split_once(trim(parts[0]), '=') {
            Some((k, v)) => if trim(k) == name {
                Some(trim(v))
            } else {
                cookie_in_parts(parts.drop_first(), name)
            },
            None => cookie_in_parts(parts.drop_first(), name),
        }
    }
}

/// The value of cookie `name` in a `Cookie` header: the header is split at
/// `;`, each piece trimmed and split at its first `=`.
pub open spec fn extract_cookie_spec(header: Option<Seq<char>>, name: Seq<char>) -> Option<Seq<char>> {
    match header {
        Some(h) => cookie_in_parts(split_char(h, ';'), name),
        None => None,
    }
}

fn cookie_in_piece(piece: &[char], name: &[char]) -> (r: Option<Vec<char>>)
    ensures
        match r {
            Some(v) => (match split_once(trim(piece@), '=') {
                Some((k, x)) => trim(k) == name@ && v@ == trim(x),
                None => false,
            }),
            None => (match split_once(trim(piece@), '=') {
                Some((k, x)) => trim(k) != name@,
                None => true,
            }),
        },
{
    let t = trim_chars(piece);
    match find_char(&t, '=') {
        Some(j) => {
            let k = sub_chars(&t, 0, j);
            let x = chars_from(&t, j + 1);
            assert(k@ =~= t@.take(j as int));
            let tk = trim_chars(&k);
            if chars_eq(&tk, name) {
                Some(trim_chars(&x))
            } else {
                None
            }
        },
        None => None,
    }
}

/// The value of cookie `name` in a `Cookie` header value.
pub fn extract_cookie(header: Option<&str>, name: &str) -> (r: Option<String>)
    ensures
        opt_string_view(r) == extract_cookie_spec(match header { Some(h) => Some(h@), None => None }, name@),
{
    let h = match header {
        Some(h) => h,
        None => return None,
    };
    let nm = to_chars(name);
    let mut rest = to_chars(h);
    loop
        invariant
            nm@ == name@,
            extract_cookie_spec(match header { Some(x) => Some(x@), None => None }, name@) == cookie_in_parts(split_char(rest@, ';'), name@),
        decreases rest@.len(),
    {
        proof {
            lemma_first_index(rest@, ';');
        }
        match find_char(&rest, ';') {
            Some(i) => {
                let piece = sub_chars(&rest, 0, i);
                assert(piece@ =~= rest@.take(i as int));
                assert(split_char(rest@, ';') == seq![rest@.take(i as int)] + split_char(rest@.skip(i + 1), ';'));
                assert((seq![rest@.take(i as int)] + split_char(rest@.skip(i + 1), ';')).drop_first() =~= split_char(rest@.skip(i + 1), ';'));
                assert(split_char(rest@, ';')[0] == piece@);
                assert(split_char(rest@, ';').drop_first() == split_char(rest@.skip(i + 1), ';'));
                match cookie_in_piece(&piece, &nm) {
                    Some(v) => return Some(from_chars(&v)),
                    None => {},
                }
                rest = chars_from(&rest, i + 1);
            },
            None => {
                assert(split_char(rest@, ';') == seq![rest@]);
                assert(seq![rest@].drop_first() =~= Seq::<Seq<char>>::empty());
                assert(split_char(rest@, ';')[0] == rest@);
                assert(split_char(rest@, ';').len() == 1);
                assert(cookie_in_parts(Seq::<Seq<char>>::empty(), name@) is None);
                match cookie_in_piece(&rest, &nm) {
                    Some(v) => return Some(from_chars(&v)),
                    None => return None,
                }
            },
        }
    }
}

/// Reading back what was written: after storing `value` under `key`, the
/// session yields `value` for `key`, and every other key keeps its value.
pub proof fn law_get_after_insert(before: Seq<(Seq<char>, (bool, Seq<char>))>, after: Seq<(Seq<char>, (bool, Seq<char>))>, key: Seq<char>, value: Seq<char>, other: Seq<char>)
    requires
        lookup(after, key) == Some((true, value)),
        forall|o: Seq<char>| o != key ==> lookup(after, o) == lookup(before, o),
        other != key,
    ensures
        get_spec(after, key) == Some(value),
        get_spec(after, other) == get_spec(before, other),
{
}

/// A browser that sends back the session cookie as `sid=<id>` gets the
/// session id read back, for every id a session is given.
pub proof fn law_cookie_roundtrip(id: Seq<char>)
    requires
        plain_cookie_value(id),
    ensures
        extract_cookie_spec(Some("sid"@ + seq!['='] + id), "sid"@) == Some(id),
{
    reveal_strlit("sid");
    let name: Seq<char> = "sid"@;
    let h = name + seq!['='] + id;
    assert forall|j: int| 0 <= j < h.len() implies h[j] != ';' by {
        if j >= 4 {
            assert(h[j] == id[j - 4]);
        }
    }
    lemma_split_char_absent(h, ';');
    assert(!is_ws(h[0]));
    assert(h.last() == id.last());
    lemma_trim_no_edge_ws(h);
    assert forall|j: int| 0 <= j < name.len() implies name[j] != '=' by {}
    lemma_split_once_at(name, '=', id);
    lemma_trim_no_edge_ws(name);
    lemma_trim_no_edge_ws(id);
    assert(seq![h].drop_first() =~= Seq::<Seq<char>>::empty());
}

/// The failure to attach a session to a request (no database handle).
#[derive(Debug)]
pub struct SessionRejection;

impl SessionRejection {
    /// The HTTP status answered: 500.
    pub fn status(&self) -> (r: u16)
        ensures
            r == 500,
    {
        500
    }

    /// The text answered.
    pub fn message(&self) -> (r: &'static str)
        ensures
            r@ == "session error"@,
    {
        "session error"
    }
}

} // verus!
