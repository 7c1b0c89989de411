//! How a rendered note body lays out its sections, and why reading a
//! section back finds exactly the text that was written into it.

use vstd::prelude::*;
use crate::text::{find, find_from, matches_at};
use crate::section::{heading_prefix, section_end, section_raw};

verus! {

/// `c` does not occur in `s`.
pub open spec fn has_no(s: Seq<char>, c: char) -> bool {
    forall|i: int| 0 <= i < s.len() ==> s[i] != c
}

/// `p` occurs nowhere in `s`.
pub open spec fn no_occ(s: Seq<char>, p: Seq<char>) -> bool {
    forall|k: int| !#[trigger] matches_at(s, p, k)
}

/// `"## "` occurs nowhere in `s`.
pub open spec fn hh_free(s: Seq<char>) -> bool {
    no_occ(s, heading_prefix())
}

/// `s` ends with a newline.
pub open spec fn ends_nl(s: Seq<char>) -> bool {
    s.len() > 0 && s.last() == '\n'
}

/// `a` and `b` differ at some position that both have.
pub open spec fn differs(a: Seq<char>, b: Seq<char>) -> bool {
    exists|i: int| 0 <= i < a.len() && i < b.len() && a[i] != b[i]
}

/// One rendered section: `"\n## " + heading + "\n" + content`.
pub open spec fn sec_text(heading: Seq<char>, content: Seq<char>) -> Seq<char> {
    section_end() + heading + seq!['\n'] + content
}

/// The rendered sections, one after the other.
pub open spec fn secs_text(secs: Seq<(Seq<char>, Seq<char>)>) -> Seq<char>
    decreases secs.len(),
{
    if secs.len() == 0 {
        Seq::empty()
    } else {
        secs_text(secs.drop_last()) + sec_text(secs.last().0, secs.last().1)
    }
}

/// A heading and content that render and read back cleanly: the heading has
/// no `#` and no newline; the content has no `"## "` and ends with a newline.
pub open spec fn sec_ok(heading: Seq<char>, content: Seq<char>) -> bool {
    has_no(heading, '#') && has_no(heading, '\n') && hh_free(content) && ends_nl(content)
}

/// Every section of `secs` is clean.
pub open spec fn secs_ok(secs: Seq<(Seq<char>, Seq<char>)>) -> bool {
    forall|i: int| 0 <= i < secs.len() ==> sec_ok(#[trigger] secs[i].0, secs[i].1)
}

/// Every heading of `secs` differs from `h`.
pub open spec fn all_differ(secs: Seq<(Seq<char>, Seq<char>)>, h: Seq<char>) -> bool {
    forall|i: int| 0 <= i < secs.len() ==> differs(h, #[trigger] secs[i].0)
}

pub proof fn lemma_no_occ_concat(a: Seq<char>, b: Seq<char>, p: Seq<char>)
    requires
        no_occ(a, p),
        no_occ(b, p),
        a.len() == 0 || a.last() == '\n',
        has_no(p, '\n'),
    ensures
        no_occ(a + b, p),
{
    assert forall|k: int| !#[trigger] matches_at(a + b, p, k) by {
        if matches_at(a + b, p, k) {
            let s = a + b;
            if k + p.len() <= a.len() {
                assert(s.subrange(k, k + p.len()) =~= a.subrange(k, k + p.len()));
                assert(matches_at(a, p, k));
            } else if k >= a.len() {
                assert(s.subrange(k, k + p.len()) =~= b.subrange(
                    k - a.len(),
                    k - a.len() + p.len(),
                ));
                assert(matches_at(b, p, k - a.len()));
            } else {
                let idx = a.len() - 1 - k;
                assert(s.subrange(k, k + p.len())[idx] == s[a.len() - 1]);
            }
        }
    }
}

pub proof fn lemma_match_prefix(s: Seq<char>, q: Seq<char>, r: Seq<char>, k: int)
    requires
        matches_at(s, q + r, k),
    ensures
        matches_at(s, q, k),
{
    assert(s.subrange(k, k + q.len()) =~= s.subrange(k, k + q.len() + r.len()).subrange(
        0,
        q.len() as int,
    ));
    assert((q + r).subrange(0, q.len() as int) =~= q);
}

pub proof fn lemma_hh_free_marker(s: Seq<char>, h: Seq<char>)
    requires
        hh_free(s),
    ensures
        no_occ(s, heading_prefix() + h),
{
    assert forall|k: int| !#[trigger] matches_at(s, heading_prefix() + h, k) by {
        if matches_at(s, heading_prefix() + h, k) {
            lemma_match_prefix(s, heading_prefix(), h, k);
        }
    }
}

pub proof fn lemma_hh_free_end(s: Seq<char>)
    requires
        hh_free(s),
    ensures
        no_occ(s, section_end()),
{
    assert forall|k: int| !#[trigger] matches_at(s, section_end(), k) by {
        if matches_at(s, section_end(), k) {
            assert(s.subrange(k + 1, k + 4) =~= s.subrange(k, k + 4).subrange(1, 4));
            assert(section_end().subrange(1, 4) =~= heading_prefix());
            assert(matches_at(s, heading_prefix(), k + 1));
        }
    }
}

pub proof fn lemma_no_occ_prefix(s: Seq<char>, n: int, p: Seq<char>)
    requires
        no_occ(s, p),
        0 <= n <= s.len(),
    ensures
        no_occ(s.take(n), p),
{
    assert forall|k: int| !#[trigger] matches_at(s.take(n), p, k) by {
        if matches_at(s.take(n), p, k) {
            assert(s.take(n).subrange(k, k + p.len()) =~= s.subrange(k, k + p.len()));
            assert(matches_at(s, p, k));
        }
    }
}

pub proof fn lemma_no_occ_short(s: Seq<char>, p: Seq<char>)
    requires
        s.len() < p.len(),
    ensures
        no_occ(s, p),
{
}

pub proof fn lemma_find_none(s: Seq<char>, p: Seq<char>, i: int)
    requires
        no_occ(s, p),
        p.len() > 0,
    ensures
        find_from(s, p, i) is None,
    decreases s.len() - i,
{
    if !(i < 0 || i + p.len() > s.len()) {
        assert(!matches_at(s, p, i));
        lemma_find_none(s, p, i + 1);
    }
}

pub proof fn lemma_find_skip(s: Seq<char>, p: Seq<char>, i: int, n: int)
    requires
        0 <= i <= n,
        p.len() > 0,
        n + p.len() <= s.len(),
        forall|k: int| i <= k < n ==> !#[trigger] matches_at(s, p, k),
    ensures
        find_from(s, p, i) == find_from(s, p, n),
    decreases n - i,
{
    if i < n {
        assert(!matches_at(s, p, i));
        lemma_find_skip(s, p, i + 1, n);
    }
}

/// No occurrence of `p` starts inside `a` in `a + b`.
pub proof fn lemma_no_match_before(a: Seq<char>, b: Seq<char>, p: Seq<char>)
    requires
        no_occ(a, p),
        a.len() == 0 || a.last() == '\n',
        has_no(p, '\n'),
    ensures
        forall|k: int| 0 <= k < a.len() ==> !#[trigger] matches_at(a + b, p, k),
{
    assert forall|k: int| 0 <= k < a.len() implies !#[trigger] matches_at(a + b, p, k) by {
        if matches_at(a + b, p, k) {
            let s = a + b;
            if k + p.len() <= a.len() {
                assert(s.subrange(k, k + p.len()) =~= a.subrange(k, k + p.len()));
                assert(matches_at(a, p, k));
            } else {
                let idx = a.len() - 1 - k;
                assert(s.subrange(k, k + p.len())[idx] == s[a.len() - 1]);
            }
        }
    }
}

/// Where `p` starts `b`, it is first found in `a + b` right after `a`.
pub proof fn lemma_find_after(a: Seq<char>, b: Seq<char>, p: Seq<char>)
    requires
        forall|k: int| 0 <= k < a.len() ==> !#[trigger] matches_at(a + b, p, k),
        p.len() > 0,
        p.len() <= b.len(),
        b.take(p.len() as int) == p,
    ensures
        find(a + b, p) == Some(a.len() as int),
{
    lemma_find_skip(a + b, p, 0, a.len() as int);
    assert((a + b).subrange(a.len() as int, (a.len() + p.len()) as int) =~= b.take(p.len() as int));
}

pub proof fn lemma_heading_line(h: Seq<char>, hd: Seq<char>)
    requires
        has_no(h, '#'),
        differs(hd, h),
    ensures
        no_occ(heading_prefix() + h + seq!['\n'], heading_prefix() + hd),
{
    let y = heading_prefix() + h + seq!['\n'];
    let p = heading_prefix() + hd;
    assert forall|k: int| !#[trigger] matches_at(y, p, k) by {
        if matches_at(y, p, k) {
            let w = y.subrange(k, k + p.len());
            assert(w[0] == y[k] && w[1] == y[k + 1]);
            assert(p[0] == '#' && p[1] == '#');
            if k == 0 {
                let i = choose|i: int| 0 <= i < hd.len() && i < h.len() && hd[i] != h[i];
                assert(w[3 + i] == y[3 + i]);
                assert(y[3 + i] == h[i]);
                assert(p[3 + i] == hd[i]);
            } else if k == 1 {
                assert(y[2] == ' ');
            } else if k == 2 {
                assert(y[2] == ' ');
            } else if k < 3 + h.len() {
                assert(y[k] == h[k - 3]);
            } else {
                assert(y[k] == '\n');
            }
        }
    }
}

pub proof fn lemma_sec_no_marker(h: Seq<char>, c: Seq<char>, hd: Seq<char>)
    requires
        sec_ok(h, c),
        differs(hd, h),
        has_no(hd, '\n'),
    ensures
        no_occ(sec_text(h, c), heading_prefix() + hd),
        ends_nl(sec_text(h, c)),
{
    let p = heading_prefix() + hd;
    let nl = seq!['\n'];
    let y = heading_prefix() + h + seq!['\n'];
    assert(has_no(p, '\n'));
    lemma_no_occ_short(nl, p);
    lemma_heading_line(h, hd);
    lemma_no_occ_concat(nl, y, p);
    lemma_hh_free_marker(c, hd);
    assert((nl + y).last() == '\n');
    lemma_no_occ_concat(nl + y, c, p);
    assert(sec_text(h, c) =~= nl + y + c);
}

pub proof fn lemma_secs_no_marker(secs: Seq<(Seq<char>, Seq<char>)>, hd: Seq<char>)
    requires
        secs_ok(secs),
        all_differ(secs, hd),
        has_no(hd, '\n'),
    ensures
        no_occ(secs_text(secs), heading_prefix() + hd),
        secs.len() > 0 ==> ends_nl(secs_text(secs)),
    decreases secs.len(),
{
    if secs.len() > 0 {
        let init = secs.drop_last();
        assert(secs_ok(init)) by {
            assert forall|i: int| 0 <= i < init.len() implies sec_ok(
                #[trigger] init[i].0,
                init[i].1,
            ) by {
                assert(init[i] == secs[i]);
            }
        }
        assert(all_differ(init, hd)) by {
            assert forall|i: int| 0 <= i < init.len() implies differs(hd, #[trigger] init[i].0) by {
                assert(init[i] == secs[i]);
            }
        }
        lemma_secs_no_marker(init, hd);
        let last = secs[secs.len() - 1];
        assert(sec_ok(last.0, last.1));
        assert(differs(hd, last.0));
        lemma_sec_no_marker(last.0, last.1, hd);
        assert(has_no(heading_prefix() + hd, '\n'));
        lemma_no_occ_concat(secs_text(init), sec_text(last.0, last.1), heading_prefix() + hd);
        assert((secs_text(init) + sec_text(last.0, last.1)).last() == sec_text(
            last.0,
            last.1,
        ).last());
    }
}

pub proof fn lemma_secs_concat(a: Seq<(Seq<char>, Seq<char>)>, b: Seq<(Seq<char>, Seq<char>)>)
    ensures
        secs_text(a + b) == secs_text(a) + secs_text(b),
    decreases b.len(),
{
    if b.len() == 0 {
        assert(a + b =~= a);
        assert(secs_text(a) + secs_text(b) =~= secs_text(a));
    } else {
        assert((a + b).drop_last() =~= a + b.drop_last());
        lemma_secs_concat(a, b.drop_last());
        assert(secs_text(a + b) =~= secs_text(a) + secs_text(b));
    }
}

/// Non-empty rendered sections begin with `"\n## "` and have text after it.
pub proof fn lemma_secs_start(secs: Seq<(Seq<char>, Seq<char>)>)
    requires
        secs.len() > 0,
    ensures
        secs_text(secs).len() > section_end().len(),
        secs_text(secs).take(section_end().len() as int) == section_end(),
{
    lemma_secs_concat(secs.take(1), secs.skip(1));
    assert(secs.take(1) + secs.skip(1) =~= secs);
    assert(secs.take(1).drop_last() =~= Seq::<(Seq<char>, Seq<char>)>::empty());
    let x = secs[0];
    assert(secs.take(1)[0] == x);
    let e = secs.take(1).drop_last();
    assert(e.len() == 0);
    assert(secs_text(e) == Seq::<char>::empty());
    assert(secs.take(1).last() == x);
    assert(secs_text(secs.take(1)) =~= secs_text(e) + sec_text(x.0, x.1));
    assert(secs_text(secs.take(1)) =~= sec_text(x.0, x.1));
    let t = secs_text(secs);
    assert(t.take(4) =~= sec_text(x.0, x.1).take(4));
    assert(t.take(4) =~= section_end());
}

/// A section's text `"\n" + c` holds no `"\n## "`.
proof fn lemma_text_no_end(c: Seq<char>)
    requires
        hh_free(c),
    ensures
        no_occ(seq!['\n'] + c, section_end()),
{
    let a = seq!['\n'] + c;
    lemma_hh_free_end(c);
    assert forall|k: int| !#[trigger] matches_at(a, section_end(), k) by {
        if matches_at(a, section_end(), k) {
            if k == 0 {
                assert(c.subrange(0, 3) =~= a.subrange(0, 4).subrange(1, 4));
                assert(section_end().subrange(1, 4) =~= heading_prefix());
                assert(matches_at(c, heading_prefix(), 0));
            } else {
                assert(a.subrange(k, k + 4) =~= c.subrange(k - 1, k + 3));
                assert(matches_at(c, section_end(), k - 1));
            }
        }
    }
}

/// After a text that ends a line and holds no `"\n## "`, the next
/// `"\n## "` is found right where the following text starts with it.
proof fn lemma_end_after(a: Seq<char>, q: Seq<char>)
    requires
        no_occ(a, section_end()),
        ends_nl(a),
        q.len() >= 4,
        q.take(4) == section_end(),
    ensures
        find(a + q, section_end()) == Some(a.len() as int),
{
    assert forall|k: int| 0 <= k < a.len() implies !#[trigger] matches_at(
        a + q,
        section_end(),
        k,
    ) by {
        if matches_at(a + q, section_end(), k) {
            let s = a + q;
            if k + 4 <= a.len() {
                assert(s.subrange(k, k + 4) =~= a.subrange(k, k + 4));
                assert(matches_at(a, section_end(), k));
            } else if k == a.len() - 1 {
                assert(s.subrange(k, k + 4)[1] == s[a.len() as int]);
                assert(s[a.len() as int] == q[0]);
                assert(q[0] == q.take(4)[0]);
            } else {
                let idx = a.len() - 1 - k;
                assert(s.subrange(k, k + 4)[idx] == s[a.len() - 1]);
            }
        }
    }
    lemma_find_after(a, q, section_end());
}

/// The first `marker` of `pre + marker + r` is right after `pre`.
proof fn lemma_marker_found(pre: Seq<char>, marker: Seq<char>, r: Seq<char>)
    requires
        no_occ(pre, marker),
        pre.len() == 0 || pre.last() == '\n',
        has_no(marker, '\n'),
        marker.len() > 0,
    ensures
        find(pre + (marker + r), marker) == Some(pre.len() as int),
        (pre + (marker + r)).skip((pre.len() + marker.len()) as int) == r,
{
    lemma_no_match_before(pre, marker + r, marker);
    assert((marker + r).take(marker.len() as int) =~= marker);
    lemma_find_after(pre, marker + r, marker);
    assert((pre + (marker + r)).skip((pre.len() + marker.len()) as int) =~= r);
}

/// Reading back one section: in `pre + "## " + h + "\n" + c + post`, where
/// `pre` holds no `## h` and ends a line and `post` is empty or starts a new
/// section, the raw text of section `h` is `"\n" + c`; cutting the last
/// character of the whole text cuts it from `c` only where `post` is empty.
pub proof fn lemma_section_found(
    pre: Seq<char>,
    h: Seq<char>,
    c: Seq<char>,
    post: Seq<char>,
)
    requires
        no_occ(pre, heading_prefix() + h),
        pre.len() == 0 || pre.last() == '\n',
        has_no(h, '\n'),
        hh_free(c),
        ends_nl(c),
        post.len() == 0 || (post.len() > section_end().len() && post.take(
            section_end().len() as int,
        ) == section_end()),
    ensures
        section_raw(pre + heading_prefix() + h + (seq!['\n'] + c) + post, h) == Some(
            seq!['\n'] + c,
        ),
        section_raw((pre + heading_prefix() + h + (seq!['\n'] + c) + post).drop_last(), h)
            == Some(
            if post.len() == 0 {
                seq!['\n'] + c.drop_last()
            } else {
                seq!['\n'] + c
            },
        ),
{
    let marker = heading_prefix() + h;
    let a = seq!['\n'] + c;
    assert(has_no(marker, '\n'));
    lemma_text_no_end(c);
    let r = a + post;
    let b = pre + heading_prefix() + h + a + post;
    assert(b =~= pre + (marker + r));
    lemma_marker_found(pre, marker, r);
    let r2 = r.drop_last();
    assert(b.drop_last() =~= pre + (marker + r2));
    lemma_marker_found(pre, marker, r2);
    if post.len() == 0 {
        assert(r =~= a);
        lemma_find_none(a, section_end(), 0);
        assert(r2 =~= seq!['\n'] + c.drop_last());
        assert(a.take(a.len() - 1) =~= r2);
        lemma_no_occ_prefix(a, a.len() - 1, section_end());
        lemma_find_none(r2, section_end(), 0);
    } else {
        lemma_end_after(a, post);
        assert(r.take(a.len() as int) =~= a);
        let p2 = post.drop_last();
        assert(r2 =~= a + p2);
        assert(p2.take(4) =~= post.take(4));
        lemma_end_after(a, p2);
        assert(r2.take(a.len() as int) =~= a);
    }
}

/// A body with no `## h` has no section `h`, whole or without its last
/// character.
pub proof fn lemma_section_absent(b: Seq<char>, h: Seq<char>)
    requires
        no_occ(b, heading_prefix() + h),
    ensures
        section_raw(b, h) is None,
        b.len() > 0 ==> section_raw(b.drop_last(), h) is None,
{
    lemma_find_none(b, heading_prefix() + h, 0);
    if b.len() > 0 {
        lemma_no_occ_prefix(b, b.len() - 1, heading_prefix() + h);
        assert(b.take(b.len() - 1) =~= b.drop_last());
        lemma_find_none(b.drop_last(), heading_prefix() + h, 0);
    }
}

} // verus!
