//! Page rendering: the page name a template stands for.
use vstd::prelude::*;
use crate::text::{from_chars, to_chars};

verus! {

/// The last `/`-separated segment of `s`.
pub open spec fn last_segment(s: Seq<char>) -> Seq<char>
    decreases s.len(),
{
    if s.len() == 0 {
        s
    } else if s.last() == '/' {
        Seq::empty()
    } else {
        last_segment(s.drop_last()).push(s.last())
    }
}

/// `s` with every trailing `.html` removed, as `str::trim_end_matches` does.
pub open spec fn trim_html(s: Seq<char>) -> Seq<char>
    decreases s.len(),
{
    if s.len() >= 5 && s.subrange(s.len() - 5, s.len() as int) == ".html"@ {
        trim_html(s.subrange(0, s.len() - 5))
    } else {
        s
    }
}

/// The page name of a template path: its file name without `.html`.
pub open spec fn page_name_spec(template: Seq<char>) -> Seq<char> {
    trim_html(last_segment(template))
}

fn ends_with_html(v: &Vec<char>, end: usize) -> (r: bool)
    requires
        end <= v@.len(),
    ensures
        r == (end >= 5 && v@.subrange(end - 5, end as int) == ".html"@),
{
    proof {
        reveal_strlit(".html");
    }
    if end < 5 {
        return false;
    }
    let r = v[end - 5] == '.' && v[end - 4] == 'h' && v[end - 3] == 't' && v[end - 2] == 'm' && v[end - 1] == 'l';
    proof {
        let w = v@.subrange(end - 5, end as int);
        if r {
            assert(w =~= ".html"@);
        } else {
            if w == ".html"@ {
                assert(w[0] == '.' && w[1] == 'h' && w[2] == 't' && w[3] == 'm' && w[4] == 'l');
            }
        }
    }
    r
}

/// The page name of a template path, such as `login` for `auth/login.html`.
pub fn page_name(template: &str) -> (r: String)
    ensures
        r@ == page_name_spec(template@),
{
    let v = to_chars(template);
    let mut start: usize = v.len();
    assert(v@.subrange(0, v@.len() as int) =~= v@);
    assert(last_segment(v@) =~= last_segment(v@.subrange(0, start as int)) + v@.subrange(start as int, v@.len() as int));
    while start > 0 && v[start - 1] != '/'
        invariant
            start <= v@.len(),
            last_segment(v@) == last_segment(v@.subrange(0, start as int)) + v@.subrange(start as int, v@.len() as int),
        decreases start,
    {
        let ghost prev = v@.subrange(0, start as int);
        assert(prev.drop_last() =~= v@.subrange(0, start - 1));
        assert(v@.subrange(start - 1, v@.len() as int) =~= seq![prev.last()] + v@.subrange(start as int, v@.len() as int));
        start -= 1;
    }
    proof {
        let prev = v@.subrange(0, start as int);
        if prev.len() == 0 {
            assert(last_segment(prev) =~= Seq::<char>::empty());
        }
        assert(v@.subrange(0, v@.len() as int) =~= v@);
    }
    let mut end: usize = v.len();
    assert(last_segment(v@) =~= v@.subrange(start as int, end as int));
    while ends_with_html(&v, end) && end - 5 >= start
        invariant
            start <= end <= v@.len(),
            page_name_spec(template@) == trim_html(v@.subrange(start as int, end as int)),
            v@ == template@,
        decreases end,
    {
        let ghost w = v@.subrange(start as int, end as int);
        assert(w.subrange(w.len() - 5, w.len() as int) =~= v@.subrange(end - 5, end as int));
        assert(w.subrange(0, w.len() - 5) =~= v@.subrange(start as int, end - 5));
        end -= 5;
    }
    proof {
        let w = v@.subrange(start as int, end as int);
        if w.len() >= 5 {
            assert(w.subrange(w.len() - 5, w.len() as int) =~= v@.subrange(end - 5, end as int));
        }
    }
    let mut out: Vec<char> = Vec::new();
    let mut k: usize = start;
    while k < end
        invariant
            start <= k <= end <= v@.len(),
            out@ == v@.subrange(start as int, k as int),
        decreases end - k,
    {
        out.push(v[k]);
        k += 1;
        assert(out@ =~= v@.subrange(start as int, k as int));
    }
    from_chars(&out)
}

} // verus!
