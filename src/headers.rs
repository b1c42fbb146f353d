//! Caller-supplied header text: one `Name: Value` pair per line.

use vstd::prelude::*;
use crate::text::push_char;

verus! {

/// The lines of a text, split at each line feed; the last line is what
/// follows the last line feed.
pub open spec fn lines_of(s: Seq<char>) -> Seq<Seq<char>>
    decreases s.len(),
{
    if s.len() == 0 {
        seq![Seq::empty()]
    } else if s.last() == '\n' {
        lines_of(s.drop_last()).push(Seq::empty())
    } else {
        let l = lines_of(s.drop_last());
        l.update(l.len() - 1, l.last().push(s.last()))
    }
}

/// White space trimmed around a header's name and value.
pub open spec fn is_trim_char(c: char) -> bool {
    c == ' ' || c == '\t' || c == '\r'
}

/// `s` without leading white space.
pub open spec fn trim_start(s: Seq<char>) -> Seq<char>
    decreases s.len(),
{
    if s.len() > 0 && is_trim_char(s[0]) {
        trim_start(s.drop_first())
    } else {
        s
    }
}

/// `s` without trailing white space.
pub open spec fn trim_end(s: Seq<char>) -> Seq<char>
    decreases s.len(),
{
    if s.len() > 0 && is_trim_char(s.last()) {
        trim_end(s.drop_last())
    } else {
        s
    }
}

/// `s` without white space at either end.
pub open spec fn trim(s: Seq<char>) -> Seq<char> {
    trim_end(trim_start(s))
}

/// `k` is the index of the first `:` in `l`.
pub open spec fn is_first_colon(l: Seq<char>, k: int) -> bool {
    0 <= k < l.len() && l[k] == ':' && forall|j: int| 0 <= j < k ==> l[j] != ':'
}

/// The header that a line states: the trimmed text before its first `:` is
/// the name, the trimmed text after it the value. A line without `:`, or
/// with an empty name, states none.
pub open spec fn header_of_line(l: Seq<char>) -> Option<(Seq<char>, Seq<char>)> {
    if exists|k: int| is_first_colon(l, k) {
        let k = choose|k: int| is_first_colon(l, k);
        let name = trim(l.subrange(0, k));
        if name.len() == 0 {
            None
        } else {
            Some((name, trim(l.subrange(k + 1, l.len() as int))))
        }
    } else {
        None
    }
}

/// The headers that a sequence of lines states, in order.
pub open spec fn headers_of_lines(ls: Seq<Seq<char>>) -> Seq<(Seq<char>, Seq<char>)>
    decreases ls.len(),
{
    if ls.len() == 0 {
        Seq::empty()
    } else {
        let before = headers_of_lines(ls.drop_last());
        match header_of_line(ls.last()) {
            Some(h) => before.push(h),
            None => before,
        }
    }
}

/// The headers that a header text states, in order.
pub open spec fn header_pairs(s: Seq<char>) -> Seq<(Seq<char>, Seq<char>)> {
    headers_of_lines(lines_of(s))
}

/// The view of a list of header pairs.
pub open spec fn pairs_view(v: Seq<(String, String)>) -> Seq<(Seq<char>, Seq<char>)> {
    Seq::new(v.len(), |i: int| (v[i].0@, v[i].1@))
}

fn trimmed(s: &Vec<char>, from: usize, to: usize) -> (r: String)
    requires
        from <= to <= s@.len(),
    ensures
        r@ == trim(s@.subrange(from as int, to as int)),
{
    let ghost whole = s@.subrange(from as int, to as int);
    let mut a: usize = from;
    while a < to && (s[a] == ' ' || s[a] == '\t' || s[a] == '\r')
        invariant
            from <= a <= to <= s@.len(),
            trim_start(whole) == trim_start(s@.subrange(a as int, to as int)),
        decreases to - a,
    {
        assert(s@.subrange(a as int, to as int).drop_first() =~= s@.subrange(a + 1, to as int));
        a = a + 1;
    }
    assert(trim_start(whole) == s@.subrange(a as int, to as int));
    let mut b: usize = to;
    while b > a && (s[b - 1] == ' ' || s[b - 1] == '\t' || s[b - 1] == '\r')
        invariant
            from <= a <= b <= to <= s@.len(),
            trim(whole) == trim_end(s@.subrange(a as int, b as int)),
        decreases b - a,
    {
        assert(s@.subrange(a as int, b as int).drop_last() =~= s@.subrange(a as int, b - 1));
        b = b - 1;
    }
    assert(trim(whole) == s@.subrange(a as int, b as int));
    let mut r = String::new();
    let mut i: usize = a;
    while i < b
        invariant
            a <= i <= b <= s@.len(),
            r@ == s@.subrange(a as int, i as int),
        decreases b - i,
    {
        push_char(&mut r, s[i]);
        i = i + 1;
        assert(r@ =~= s@.subrange(a as int, i as int));
    }
    r
}

/// The header that a line states, if any.
fn parse_header_line(l: &Vec<char>) -> (r: Option<(String, String)>)
    ensures
        match r {
            Some(p) => header_of_line(l@) == Some((p.0@, p.1@)),
            None => header_of_line(l@) is None,
        },
{
    let mut k: usize = 0;
    while k < l.len() && l[k] != ':'
        invariant
            k <= l@.len(),
            forall|j: int| 0 <= j < k ==> l@[j] != ':',
        decreases l@.len() - k,
    {
        k = k + 1;
    }
    if k == l.len() {
        assert(!exists|k: int| is_first_colon(l@, k));
        return None;
    }
    assert(is_first_colon(l@, k as int));
    proof {
        let c = choose|c: int| is_first_colon(l@, c);
        if c < k {
        } else if c > k {
            assert(l@[k as int] != ':');
        }
        assert(c == k);
    }
    let name = trimmed(l, 0, k);
    if name.unicode_len() == 0 {
        return None;
    }
    let value = trimmed(l, k + 1, l.len());
    Some((name, value))
}

/// The headers that a header text states, in order: one per line that holds
/// a `:` after a non-empty name.
pub fn parse_header_text(text: &str) -> (r: Vec<(String, String)>)
    ensures
        pairs_view(r@) == header_pairs(text@),
{
    let n = text.unicode_len();
    let mut out: Vec<(String, String)> = Vec::new();
    let mut cur: Vec<char> = Vec::new();
    let mut i: usize = 0;
    assert(text@.subrange(0, 0) =~= Seq::<char>::empty());
    while i < n
        invariant
            n == text@.len(),
            i <= n,
            lines_of(text@.subrange(0, i as int)).len() >= 1,
            pairs_view(out@) == headers_of_lines(lines_of(text@.subrange(0, i as int)).drop_last()),
            cur@ == lines_of(text@.subrange(0, i as int)).last(),
        decreases n - i,
    {
        let c = text.get_char(i);
        let ghost pre = text@.subrange(0, i as int);
        let ghost next = text@.subrange(0, i + 1);
        assert(next.drop_last() =~= pre);
        assert(next.last() == c);
        if c == '\n' {
            let h = parse_header_line(&cur);
            match h {
                Some(p) => {
                    out.push(p);
                },
                None => {},
            }
            proof {
                let ls = lines_of(pre);
                assert(lines_of(next) == ls.push(Seq::empty()));
                assert(lines_of(next).drop_last() =~= ls);
                assert(ls =~= ls.drop_last().push(ls.last()));
                assert(pairs_view(out@) =~= headers_of_lines(ls));
            }
            cur = Vec::new();
            assert(cur@ =~= lines_of(next).last());
        } else {
            cur.push(c);
            proof {
                let ls = lines_of(pre);
                let nl = lines_of(next);
                assert(nl == ls.update(ls.len() - 1, ls.last().push(c)));
                assert(nl.drop_last() =~= ls.drop_last());
            }
        }
        i = i + 1;
    }
    assert(text@.subrange(0, n as int) =~= text@);
    let h = parse_header_line(&cur);
    proof {
        let ls = lines_of(text@);
        assert(ls =~= ls.drop_last().push(ls.last()));
    }
    match h {
        Some(p) => {
            out.push(p);
        },
        None => {},
    }
    assert(pairs_view(out@) =~= header_pairs(text@));
    out
}

/// A copy of a list of header pairs.
pub fn copy_pairs(v: &Vec<(String, String)>) -> (r: Vec<(String, String)>)
    ensures
        pairs_view(r@) == pairs_view(v@),
{
    let mut r: Vec<(String, String)> = Vec::new();
    let mut i: usize = 0;
    while i < v.len()
        invariant
            i <= v@.len(),
            r@.len() == i,
            pairs_view(r@) == pairs_view(v@.subrange(0, i as int)),
        decreases v@.len() - i,
    {
        let ghost before = r@;
        let a = v[i].0.clone();
        let b = v[i].1.clone();
        r.push((a, b));
        proof {
            let old_view = pairs_view(before);
            assert forall|j: int| 0 <= j < i + 1 implies #[trigger] pairs_view(r@)[j] == pairs_view(v@.subrange(0, i + 1))[j] by {
                if j < i {
                    assert(r@[j] == before[j]);
                    assert(old_view[j] == pairs_view(v@.subrange(0, i as int))[j]);
                }
            }
        }
        i = i + 1;
        assert(pairs_view(r@) =~= pairs_view(v@.subrange(0, i as int)));
    }
    assert(v@.subrange(0, v@.len() as int) =~= v@);
    r
}

/// A header as one line of text: `Name: Value`.
pub open spec fn header_line(name: Seq<char>, value: Seq<char>) -> Seq<char> {
    name + ": "@ + value
}

/// Renders received headers as `Name: Value` lines, one per header, in the
/// order in which they were received.
pub fn render_header_lines(pairs: &Vec<(String, String)>) -> (r: Vec<String>)
    ensures
        r@.len() == pairs@.len(),
        forall|i: int| 0 <= i < r@.len() ==> (#[trigger] r@[i])@ == header_line(pairs@[i].0@, pairs@[i].1@),
{
    let mut r: Vec<String> = Vec::new();
    let mut i: usize = 0;
    while i < pairs.len()
        invariant
            i <= pairs@.len(),
            r@.len() == i,
            forall|k: int| 0 <= k < i ==> (#[trigger] r@[k])@ == header_line(pairs@[k].0@, pairs@[k].1@),
        decreases pairs@.len() - i,
    {
        let mut line = pairs[i].0.clone();
        line.append(": ");
        line.append(pairs[i].1.as_str());
        r.push(line);
        i = i + 1;
    }
    r
}

} // verus!
