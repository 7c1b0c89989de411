//! The body of a note: `## Heading` sections, and the `- item` lists inside
//! them.

use vstd::prelude::*;
use crate::text::{
    chars_of, find, find_chars, find_from, is_whitespace, is_ws, lemma_find_bound, slice_chars,
    string_of, trim_end_ws, trim_start_nl, trim_start_ws, trim_ws,
};

verus! {

/// `"## "`, the start of a section heading.
pub open spec fn heading_prefix() -> Seq<char> {
    seq!['#', '#', ' ']
}

/// `"\n## "`, the text that ends a section.
pub open spec fn section_end() -> Seq<char> {
    seq!['\n', '#', '#', ' ']
}

/// What follows the first `## heading` of `body` up to the next `\n## `
/// (or to the end); `None` where `body` has no such heading.
pub open spec fn section_raw(body: Seq<char>, heading: Seq<char>) -> Option<Seq<char>> {
    let marker = heading_prefix() + heading;
    match find(body, marker) {
        None => None,
        Some(start) => {
            let rest = body.skip(start + marker.len());
            match find(rest, section_end()) {
                Some(e) => Some(rest.take(e)),
                None => Some(rest),
            }
        },
    }
}

/// The text of the section `heading` of `body`: its raw text without
/// leading newlines and trailing white space; `None` where there is no such
/// heading or the text is empty.
pub open spec fn section_of(body: Seq<char>, heading: Seq<char>) -> Option<Seq<char>> {
    match section_raw(body, heading) {
        None => None,
        Some(raw) => {
            let text = trim_end_ws(trim_start_nl(raw));
            if text.len() == 0 {
                None
            } else {
                Some(text)
            }
        },
    }
}

/// `s` cut at every newline; the last piece is what follows the last newline
/// (empty where `s` ends with one).
pub open spec fn split_nl(s: Seq<char>) -> Seq<Seq<char>>
    decreases s.len(),
{
    if s.len() == 0 {
        seq![Seq::<char>::empty()]
    } else {
        let init = split_nl(s.drop_last());
        if s.last() == '\n' {
            init.push(Seq::<char>::empty())
        } else {
            init.update(init.len() - 1, init.last().push(s.last()))
        }
    }
}

/// The item of a list line: the trimmed line after its leading `"- "`.
pub open spec fn bullet_of(line: Seq<char>) -> Option<Seq<char>> {
    let t = trim_ws(line);
    if t.len() >= 2 && t[0] == '-' && t[1] == ' ' {
        Some(t.skip(2))
    } else {
        None
    }
}

/// The items of the list lines among `lines`, in order.
pub open spec fn bullets(lines: Seq<Seq<char>>) -> Seq<Seq<char>>
    decreases lines.len(),
{
    if lines.len() == 0 {
        Seq::empty()
    } else {
        let before = bullets(lines.drop_last());
        match bullet_of(lines.last()) {
            Some(item) => before.push(item),
            None => before,
        }
    }
}

/// The list items of the section `heading` of `body`. Cutting at every
/// newline gives the items that `str::lines` gives: the two differ only in
/// a trailing empty piece and in a `\r` before a newline, and trimming
/// removes both.
pub open spec fn list_of(body: Seq<char>, heading: Seq<char>) -> Seq<Seq<char>> {
    match section_of(body, heading) {
        None => Seq::empty(),
        Some(text) => bullets(split_nl(text)),
    }
}

/// The views of a vector of strings.
pub open spec fn views(v: Seq<String>) -> Seq<Seq<char>> {
    v.map_values(|s: String| s@)
}

proof fn lemma_trim_start_nl_step(v: Seq<char>, lo: int, hi: int)
    requires
        0 <= lo < hi <= v.len(),
        v[lo] == '\n',
    ensures
        trim_start_nl(v.subrange(lo, hi)) == trim_start_nl(v.subrange(lo + 1, hi)),
{
    assert(v.subrange(lo, hi).drop_first() =~= v.subrange(lo + 1, hi));
}

proof fn lemma_trim_end_step(v: Seq<char>, lo: int, hi: int)
    requires
        0 <= lo < hi <= v.len(),
        is_ws(v[hi - 1]),
    ensures
        trim_end_ws(v.subrange(lo, hi)) == trim_end_ws(v.subrange(lo, hi - 1)),
{
    assert(v.subrange(lo, hi).drop_last() =~= v.subrange(lo, hi - 1));
}

proof fn lemma_trim_start_step(v: Seq<char>, lo: int, hi: int)
    requires
        0 <= lo < hi <= v.len(),
        is_ws(v[lo]),
    ensures
        trim_start_ws(v.subrange(lo, hi)) == trim_start_ws(v.subrange(lo + 1, hi)),
{
    assert(v.subrange(lo, hi).drop_first() =~= v.subrange(lo + 1, hi));
}

/// The bounds of `trim_end_ws(v[lo..hi])` within `v`.
fn trim_end_bound(v: &Vec<char>, lo: usize, hi: usize) -> (r: usize)
    requires
        lo <= hi <= v.len(),
    ensures
        lo <= r <= hi,
        trim_end_ws(v@.subrange(lo as int, hi as int)) == v@.subrange(lo as int, r as int),
{
    let mut h = hi;
    while h > lo && is_whitespace(v[h - 1])
        invariant
            lo <= h <= hi <= v.len(),
            trim_end_ws(v@.subrange(lo as int, hi as int)) == trim_end_ws(
                v@.subrange(lo as int, h as int),
            ),
        decreases h,
    {
        proof {
            lemma_trim_end_step(v@, lo as int, h as int);
        }
        h -= 1;
    }
    h
}

/// The bounds of `trim_start_ws(v[lo..hi])` within `v`.
fn trim_start_bound(v: &Vec<char>, lo: usize, hi: usize) -> (r: usize)
    requires
        lo <= hi <= v.len(),
    ensures
        lo <= r <= hi,
        trim_start_ws(v@.subrange(lo as int, hi as int)) == v@.subrange(r as int, hi as int),
{
    let mut l = lo;
    while l < hi && is_whitespace(v[l])
        invariant
            lo <= l <= hi <= v.len(),
            trim_start_ws(v@.subrange(lo as int, hi as int)) == trim_start_ws(
                v@.subrange(l as int, hi as int),
            ),
        decreases hi - l,
    {
        proof {
            lemma_trim_start_step(v@, l as int, hi as int);
        }
        l += 1;
    }
    l
}

/// `s` without leading and trailing white space (`str::trim`).
pub fn trim_text(s: &str) -> (r: String)
    ensures
        r@ == trim_ws(s@),
{
    let v = chars_of(s);
    assert(v@.subrange(0, v@.len() as int) =~= s@);
    let h = trim_end_bound(&v, 0, v.len());
    let l = trim_start_bound(&v, 0, h);
    string_of(&v, l, h)
}

/// The list item of the line `v[lo..hi]`, if it is a list line.
fn bullet_in(v: &Vec<char>, lo: usize, hi: usize) -> (r: Option<String>)
    requires
        lo <= hi <= v.len(),
    ensures
        match r {
            Some(x) => bullet_of(v@.subrange(lo as int, hi as int)) == Some(x@),
            None => bullet_of(v@.subrange(lo as int, hi as int)) is None,
        },
{
    let e = trim_end_bound(v, lo, hi);
    let s = trim_start_bound(v, lo, e);
    let ghost t = v@.subrange(s as int, e as int);
    assert(trim_ws(v@.subrange(lo as int, hi as int)) == t);
    if e - s >= 2 && v[s] == '-' && v[s + 1] == ' ' {
        assert(t[0] == v@[s as int] && t[1] == v@[s + 1]);
        assert(t.skip(2) =~= v@.subrange(s + 2, e as int));
        Some(string_of(v, s + 2, e))
    } else {
        assert(t.len() >= 2 ==> t[0] == v@[s as int] && t[1] == v@[s + 1]);
        None
    }
}

proof fn lemma_split_step(s: Seq<char>, i: int)
    requires
        0 <= i < s.len(),
    ensures
        split_nl(s.take(i + 1)) == (if s[i] == '\n' {
            split_nl(s.take(i)).push(Seq::<char>::empty())
        } else {
            let init = split_nl(s.take(i));
            init.update(init.len() - 1, init.last().push(s[i]))
        }),
{
    assert(s.take(i + 1).drop_last() =~= s.take(i));
}

proof fn lemma_split_nonempty(s: Seq<char>)
    ensures
        split_nl(s).len() >= 1,
    decreases s.len(),
{
    if s.len() > 0 {
        lemma_split_nonempty(s.drop_last());
    }
}

/// The list items of the text `v`.
fn bullets_in(v: &Vec<char>) -> (r: Vec<String>)
    ensures
        views(r@) == bullets(split_nl(v@)),
{
    let mut out: Vec<String> = Vec::new();
    let ghost mut done: Seq<Seq<char>> = Seq::empty();
    let mut start: usize = 0;
    let mut i: usize = 0;
    assert(v@.take(0) =~= Seq::<char>::empty());
    while i < v.len()
        invariant
            start <= i <= v.len(),
            split_nl(v@.take(i as int)) == done.push(v@.subrange(start as int, i as int)),
            views(out@) == bullets(done),
        decreases v.len() - i,
    {
        proof {
            lemma_split_step(v@, i as int);
        }
        if v[i] == '\n' {
            let item = bullet_in(v, start, i);
            assert(done.push(v@.subrange(start as int, i as int)).drop_last() =~= done);
            match item {
                Some(x) => {
                    out.push(x);
                    assert(views(out@) =~= bullets(done).push(x@));
                },
                None => {},
            }
            proof {
                done = done.push(v@.subrange(start as int, i as int));
            }
            start = i + 1;
            assert(v@.subrange(start as int, i + 1) =~= Seq::<char>::empty());
        } else {
            proof {
                let init = done.push(v@.subrange(start as int, i as int));
                assert(v@.subrange(start as int, i + 1) =~= v@.subrange(start as int, i as int).push(v@[i as int]));
                assert(init.update(init.len() - 1, init.last().push(v@[i as int])) =~= done.push(
                    v@.subrange(start as int, i + 1),
                ));
            }
        }
        i += 1;
    }
    assert(v@.take(v.len() as int) =~= v@);
    let last = bullet_in(v, start, v.len());
    let ghost lines = done.push(v@.subrange(start as int, v.len() as int));
    assert(lines.drop_last() =~= done);
    match last {
        Some(x) => {
            out.push(x);
            assert(views(out@) =~= bullets(done).push(x@));
        },
        None => {},
    }
    out
}

/// The characters of `"## " + heading`.
fn marker_of(heading: &str) -> (r: Vec<char>)
    ensures
        r@ == heading_prefix() + heading@,
{
    let h = chars_of(heading);
    let mut m: Vec<char> = Vec::new();
    m.push('#');
    m.push('#');
    m.push(' ');
    let mut i: usize = 0;
    while i < h.len()
        invariant
            i <= h.len(),
            m@ == heading_prefix() + h@.take(i as int),
        decreases h.len() - i,
    {
        m.push(h[i]);
        i += 1;
        assert(m@ =~= heading_prefix() + h@.take(i as int));
    }
    assert(h@.take(h.len() as int) =~= h@);
    m
}

/// The text of the section `heading` of `body` (see `section_of`).
pub fn extract_section(body: &str, heading: &str) -> (r: Option<String>)
    ensures
        match r {
            Some(t) => section_of(body@, heading@) == Some(t@),
            None => section_of(body@, heading@) is None,
        },
{
    let b = chars_of(body);
    let marker = marker_of(heading);
    let start = match find_chars(&b, &marker, 0) {
        Some(s) => s,
        None => return None,
    };
    proof {
        lemma_find_bound(b@, marker@, 0);
    }
    let mlen = marker.len();
    assert(start + mlen <= b.len());
    let after = start + mlen;
    let rest = slice_chars(&b, after, b.len());
    assert(rest@ =~= b@.skip(after as int));
    let term: Vec<char> = vec!['\n', '#', '#', ' '];
    assert(term@ =~= section_end());
    let end = match find_chars(&rest, &term, 0) {
        Some(e) => {
            proof {
                lemma_find_bound(rest@, term@, 0);
            }
            e
        },
        None => rest.len(),
    };
    let ghost raw = rest@.take(end as int);
    assert(raw =~= rest@.subrange(0, end as int));
    let mut lo: usize = 0;
    while lo < end && rest[lo] == '\n'
        invariant
            lo <= end <= rest.len(),
            trim_start_nl(raw) == trim_start_nl(rest@.subrange(lo as int, end as int)),
        decreases end - lo,
    {
        proof {
            lemma_trim_start_nl_step(rest@, lo as int, end as int);
        }
        lo += 1;
    }
    assert(trim_start_nl(rest@.subrange(lo as int, end as int)) == rest@.subrange(
        lo as int,
        end as int,
    ));
    let hi = trim_end_bound(&rest, lo, end);
    assert(raw == (match find(rest@, section_end()) {
        Some(e) => rest@.take(e),
        None => rest@,
    })) by {
        assert(rest@.take(rest@.len() as int) =~= rest@);
    }
    if hi == lo {
        None
    } else {
        Some(string_of(&rest, lo, hi))
    }
}

/// The list items of the section `heading` of `body` (see `list_of`).
pub fn extract_list(body: &str, heading: &str) -> (r: Vec<String>)
    ensures
        views(r@) == list_of(body@, heading@),
{
    match extract_section(body, heading) {
        None => Vec::new(),
        Some(text) => {
            let t = chars_of(text.as_str());
            bullets_in(&t)
        },
    }
}

} // verus!
