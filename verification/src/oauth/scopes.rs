//! OAuth scopes: parsing a space-separated scope request into the set of
//! scopes this provider knows, writing a set back out, and testing a
//! stored scope string.
use vstd::prelude::*;
use crate::text::{
    chars_eq, is_ws, lemma_words_skip_ws_char, lemma_words_take_run, no_ws, push_str, split_whitespace, to_chars,
    words,
};

verus! {

/// The scope that grants the user's id, username and creation date.
pub const OPENID: &'static str = "openid";

/// The scope that grants display name, colour and avatar.
pub const PROFILE: &'static str = "profile";

/// The scope that grants reading the user's notification inbox.
pub const NOTIFICATIONS_READ: &'static str = "notifications:read";

pub open spec fn openid_name() -> Seq<char> {
    seq!['o', 'p', 'e', 'n', 'i', 'd']
}

pub open spec fn profile_name() -> Seq<char> {
    seq!['p', 'r', 'o', 'f', 'i', 'l', 'e']
}

pub open spec fn notifications_read_name() -> Seq<char> {
    seq!['n', 'o', 't', 'i', 'f', 'i', 'c', 'a', 't', 'i', 'o', 'n', 's', ':', 'r', 'e', 'a', 'd']
}

/// Whether `s` names one of the known scopes.
pub open spec fn is_known_scope(s: Seq<char>) -> bool {
    s == openid_name() || s == profile_name() || s == notifications_read_name()
}

/// A set of known scopes.
#[derive(Clone, Copy, Debug, PartialEq, Eq, Structural)]
pub struct ScopeSet {
    pub openid: bool,
    pub profile: bool,
    pub notifications_read: bool,
}

impl View for ScopeSet {
    type V = Set<Seq<char>>;

    open spec fn view(&self) -> Set<Seq<char>> {
        Set::new(
            |s: Seq<char>|
                (self.openid && s == openid_name()) || (self.profile && s == profile_name()) || (
                self.notifications_read && s == notifications_read_name()),
        )
    }
}

/// The known scopes among the words of `raw`.
pub open spec fn parse_spec(raw: Seq<char>) -> ScopeSet {
    ScopeSet {
        openid: words(raw).contains(openid_name()),
        profile: words(raw).contains(profile_name()),
        notifications_read: words(raw).contains(notifications_read_name()),
    }
}

/// The scopes of `s` in byte order ("notifications:read" < "openid" < "profile").
pub open spec fn sorted_names(s: ScopeSet) -> Seq<Seq<char>> {
    let a = if s.notifications_read { seq![notifications_read_name()] } else { Seq::empty() };
    let b = if s.openid { seq![openid_name()] } else { Seq::empty() };
    let c = if s.profile { seq![profile_name()] } else { Seq::empty() };
    a + b + c
}

/// The words of `ws` joined by single spaces.
pub open spec fn join_words(ws: Seq<Seq<char>>) -> Seq<char>
    decreases ws.len(),
{
    if ws.len() == 0 {
        Seq::empty()
    } else if ws.len() == 1 {
        ws[0]
    } else {
        ws[0] + seq![' '] + join_words(ws.drop_first())
    }
}

/// The canonical text of a scope set: its scopes sorted and joined by spaces.
pub open spec fn serialize_spec(s: ScopeSet) -> Seq<char> {
    join_words(sorted_names(s))
}

proof fn lemma_names_are_words()
    ensures
        openid_name().len() > 0 && no_ws(openid_name()),
        profile_name().len() > 0 && no_ws(profile_name()),
        notifications_read_name().len() > 0 && no_ws(notifications_read_name()),
        openid_name() != profile_name(),
        openid_name() != notifications_read_name(),
        profile_name() != notifications_read_name(),
{
    assert(openid_name()[0] != profile_name()[0]);
    assert(openid_name()[0] != notifications_read_name()[0]);
    assert(profile_name()[0] != notifications_read_name()[0]);
}

/// Joining non-empty whitespace-free words and splitting the result gives
/// the words back.
pub proof fn lemma_words_of_join(ws: Seq<Seq<char>>)
    requires
        forall|i: int| 0 <= i < ws.len() ==> #[trigger] ws[i].len() > 0 && no_ws(ws[i]),
    ensures
        words(join_words(ws)) == ws,
    decreases ws.len(),
{
    if ws.len() == 0 {
        assert(words(Seq::<char>::empty()) =~= Seq::<Seq<char>>::empty());
    } else if ws.len() == 1 {
        let w = ws[0];
        assert(w.take(w.len() as int) =~= w);
        lemma_words_take_run(w, w.len() as int);
        assert(w.skip(w.len() as int).len() == 0);
        assert(words(w.skip(w.len() as int)) =~= Seq::<Seq<char>>::empty());
        assert(ws =~= seq![w]);
    } else {
        let w = ws[0];
        let rest = ws.drop_first();
        assert forall|i: int| 0 <= i < rest.len() implies #[trigger] rest[i].len() > 0 && no_ws(
            rest[i],
        ) by {
            assert(rest[i] == ws[i + 1]);
        }
        lemma_words_of_join(rest);
        let s = w + seq![' '] + join_words(rest);
        assert(s.take(w.len() as int) =~= w);
        assert(s[w.len() as int] == ' ');
        assert(is_ws(' '));
        lemma_words_take_run(s, w.len() as int);
        let t = s.skip(w.len() as int);
        assert(t[0] == ' ');
        lemma_words_skip_ws_char(t);
        assert(t.drop_first() =~= join_words(rest));
        assert(seq![w] + rest =~= ws);
    }
}

proof fn lemma_sorted_names_shape(s: ScopeSet)
    ensures
        forall|i: int|
            0 <= i < sorted_names(s).len() ==> #[trigger] sorted_names(s)[i].len() > 0 && no_ws(
                sorted_names(s)[i],
            ),
        forall|v: Seq<char>| sorted_names(s).contains(v) <==> s@.contains(v),
{
    lemma_names_are_words();
    let l = sorted_names(s);
    assert forall|i: int| 0 <= i < l.len() implies #[trigger] l[i].len() > 0 && no_ws(l[i]) by {
        assert(is_known_scope(l[i]));
    }
    assert forall|v: Seq<char>| l.contains(v) <==> s@.contains(v) by {
        if s@.contains(v) {
            if s.notifications_read && v == notifications_read_name() {
                assert(l[0] == v);
            } else if s.openid && v == openid_name() {
                let k: int = if s.notifications_read { 1 } else { 0 };
                assert(l[k] == v);
            } else {
                assert(l[l.len() - 1] == v);
            }
        }
    }
}

/// The words of a serialized scope set are exactly its scopes, in byte order.
pub proof fn lemma_words_of_serialize(s: ScopeSet)
    ensures
        words(serialize_spec(s)) == sorted_names(s),
{
    lemma_sorted_names_shape(s);
    lemma_words_of_join(sorted_names(s));
}

/// Reading back a written scope set gives the same set.
pub proof fn law_parse_serialize_roundtrip(s: ScopeSet)
    ensures
        parse_spec(serialize_spec(s)) == s,
{
    lemma_words_of_serialize(s);
    lemma_sorted_names_shape(s);
    lemma_names_are_words();
    assert(s@.contains(openid_name()) == s.openid);
    assert(s@.contains(profile_name()) == s.profile);
    assert(s@.contains(notifications_read_name()) == s.notifications_read);
}

/// A serialized scope set contains exactly the scopes of the set.
pub proof fn law_contains_serialized(s: ScopeSet, scope: Seq<char>)
    ensures
        words(serialize_spec(s)).contains(scope) <==> s@.contains(scope),
{
    lemma_words_of_serialize(s);
    lemma_sorted_names_shape(s);
}

/// Parsing keeps only known scopes, and keeps each known scope the raw text names.
pub proof fn law_parse_keeps_known_words(raw: Seq<char>, scope: Seq<char>)
    ensures
        parse_spec(raw)@.contains(scope) <==> (is_known_scope(scope) && words(raw).contains(
            scope,
        )),
{
}

fn known_chars() -> (r: (Vec<char>, Vec<char>, Vec<char>))
    ensures
        r.0@ == openid_name(),
        r.1@ == profile_name(),
        r.2@ == notifications_read_name(),
{
    proof {
        reveal_strlit("openid");
        reveal_strlit("profile");
        reveal_strlit("notifications:read");
    }
    let a = to_chars(OPENID);
    let b = to_chars(PROFILE);
    let c = to_chars(NOTIFICATIONS_READ);
    assert(a@ =~= openid_name());
    assert(b@ =~= profile_name());
    assert(c@ =~= notifications_read_name());
    (a, b, c)
}

/// The known scopes that `raw` names as whitespace-separated words.
pub fn parse(raw: &str) -> (r: ScopeSet)
    ensures
        r == parse_spec(raw@),
{
    let toks = split_whitespace(raw);
    let (o, p, n) = known_chars();
    let mut r = ScopeSet { openid: false, profile: false, notifications_read: false };
    let mut i: usize = 0;
    while i < toks.len()
        invariant
            i <= toks@.len(),
            toks@.len() == words(raw@).len(),
            forall|k: int| 0 <= k < toks@.len() ==> #[trigger] toks@[k]@ == words(raw@)[k],
            o@ == openid_name(),
            p@ == profile_name(),
            n@ == notifications_read_name(),
            r.openid == words(raw@).take(i as int).contains(openid_name()),
            r.profile == words(raw@).take(i as int).contains(profile_name()),
            r.notifications_read == words(raw@).take(i as int).contains(notifications_read_name()),
        decreases toks@.len() - i,
    {
        let t = &toks[i];
        let ghost ws = words(raw@);
        assert(ws.take(i + 1) =~= ws.take(i as int).push(ws[i as int]));
        proof {
            lemma_contains_push(ws.take(i as int), openid_name(), ws[i as int]);
            lemma_contains_push(ws.take(i as int), profile_name(), ws[i as int]);
            lemma_contains_push(ws.take(i as int), notifications_read_name(), ws[i as int]);
        }
        if chars_eq(t, &o) {
            r.openid = true;
        }
        if chars_eq(t, &p) {
            r.profile = true;
        }
        if chars_eq(t, &n) {
            r.notifications_read = true;
        }
        i += 1;
    }
    assert(words(raw@).take(toks@.len() as int) =~= words(raw@));
    r
}

/// The set's scopes sorted and joined by single spaces.
pub fn serialize(scopes: &ScopeSet) -> (r: String)
    ensures
        r@ == serialize_spec(*scopes),
{
    proof {
        reveal_strlit("openid");
        reveal_strlit("profile");
        reveal_strlit("notifications:read");
        reveal_strlit(" ");
    }
    let ghost names = sorted_names(*scopes);
    let mut r = String::new();
    let mut first = true;
    let ghost mut done: Seq<Seq<char>> = Seq::empty();
    if scopes.notifications_read {
        push_str(&mut r, NOTIFICATIONS_READ);
        first = false;
        proof {
            done = seq![notifications_read_name()];
        }
        assert(r@ =~= join_words(done));
    }
    if scopes.openid {
        if !first {
            push_str(&mut r, " ");
        }
        push_str(&mut r, OPENID);
        proof {
            lemma_join_push(done, openid_name());
            done = done.push(openid_name());
        }
        first = false;
    }
    if scopes.profile {
        if !first {
            push_str(&mut r, " ");
        }
        push_str(&mut r, PROFILE);
        proof {
            lemma_join_push(done, profile_name());
            done = done.push(profile_name());
        }
    }
    assert(done =~= names);
    r
}

proof fn lemma_join_push(ws: Seq<Seq<char>>, w: Seq<char>)
    ensures
        ws.len() == 0 ==> join_words(ws.push(w)) == w,
        ws.len() > 0 ==> join_words(ws.push(w)) == join_words(ws) + seq![' '] + w,
    decreases ws.len(),
{
    if ws.len() == 0 {
        assert(ws.push(w) =~= seq![w]);
    } else if ws.len() == 1 {
        assert(ws.push(w).drop_first() =~= seq![w]);
        assert(ws.push(w)[0] == ws[0]);
        assert(join_words(seq![w]) == w);
        assert(join_words(ws.push(w)) == ws[0] + seq![' '] + join_words(ws.push(w).drop_first()));
    } else {
        lemma_join_push(ws.drop_first(), w);
        assert(ws.push(w).drop_first() =~= ws.drop_first().push(w));
        assert(ws.push(w)[0] == ws[0]);
        assert(join_words(ws.push(w)) == ws[0] + seq![' '] + join_words(ws.drop_first().push(w)));
        assert(join_words(ws.push(w)) =~= join_words(ws) + seq![' '] + w);
    }
}

proof fn lemma_contains_push(s: Seq<Seq<char>>, x: Seq<char>, y: Seq<char>)
    ensures
        s.push(y).contains(x) <==> (s.contains(x) || y == x),
{
    if s.push(y).contains(x) {
        let k = choose|k: int| 0 <= k < s.push(y).len() && s.push(y)[k] == x;
        if k < s.len() {
            assert(s[k] == x);
        }
    }
    if s.contains(x) {
        let k = choose|k: int| 0 <= k < s.len() && s[k] == x;
        assert(s.push(y)[k] == x);
    }
    if y == x {
        assert(s.push(y)[s.len() as int] == x);
    }
}

/// Whether `scope` is one of the whitespace-separated words of `stored`.
pub fn contains(stored: &str, scope: &str) -> (r: bool)
    ensures
        r == words(stored@).contains(scope@),
{
    let toks = split_whitespace(stored);
    let sc = to_chars(scope);
    let mut i: usize = 0;
    while i < toks.len()
        invariant
            i <= toks@.len(),
            toks@.len() == words(stored@).len(),
            forall|k: int| 0 <= k < toks@.len() ==> #[trigger] toks@[k]@ == words(stored@)[k],
            sc@ == scope@,
            forall|k: int| 0 <= k < i ==> words(stored@)[k] != scope@,
        decreases toks@.len() - i,
    {
        if chars_eq(&toks[i], &sc) {
            assert(words(stored@)[i as int] == scope@);
            return true;
        }
        i += 1;
    }
    false
}

impl ScopeSet {
    /// The empty set.
    pub fn empty() -> (r: ScopeSet)
        ensures
            r@ == Set::<Seq<char>>::empty(),
    {
        let r = ScopeSet { openid: false, profile: false, notifications_read: false };
        assert(r@ =~= Set::<Seq<char>>::empty());
        r
    }

    /// Whether the set holds the scope named `name`.
    pub fn contains(&self, name: &str) -> (r: bool)
        ensures
            r == self@.contains(name@),
    {
        let (o, p, n) = known_chars();
        let v = to_chars(name);
        (self.openid && chars_eq(&v, &o)) || (self.profile && chars_eq(&v, &p)) || (
        self.notifications_read && chars_eq(&v, &n))
    }
}

} // verus!
