//! What reading a note body gives back of the body that was written: every
//! section and list comes back as it went in, for texts that keep clear of
//! the markup.

use vstd::prelude::*;
use crate::text::{is_ws, trim_end_ws, trim_start_nl, trim_start_ws, trim_ws, matches_at};
use crate::section::{
    bullet_of, bullets, heading_prefix, list_of, section_end, section_of, section_raw, split_nl,
};
use crate::layout::{
    all_differ, differs, ends_nl, has_no, hh_free, lemma_hh_free_marker, lemma_no_occ_concat,
    lemma_no_occ_short, lemma_section_absent, lemma_section_found, lemma_secs_concat,
    lemma_secs_no_marker, lemma_secs_start, no_occ, sec_ok, sec_text, secs_ok, secs_text,
};
use crate::note::{lemma_secs_single, list_lines, list_secs, text_secs, title_line};
use crate::markdown::{
    examples_of, phrase_body, reading_body, word_body, PhraseNote, ReadingNote, WordNote,
};

verus! {

/// A section text that reads back as written: not empty, not starting with
/// a newline, not ending with white space, and without `"## "`.
pub open spec fn clean_text(t: Seq<char>) -> bool {
    t.len() > 0 && t[0] != '\n' && !is_ws(t.last()) && hh_free(t)
}

/// An optional section text that reads back as written.
pub open spec fn clean_opt(t: Option<Seq<char>>) -> bool {
    t matches Some(x) ==> clean_text(x)
}

/// A list item that reads back as written: one line, not empty, not ending
/// with white space, and without `"## "`.
pub open spec fn clean_item(x: Seq<char>) -> bool {
    x.len() > 0 && has_no(x, '\n') && !is_ws(x.last()) && hh_free(x)
}

/// Every item of a list reads back as written.
pub open spec fn clean_items(xs: Seq<Seq<char>>) -> bool {
    forall|i: int| 0 <= i < xs.len() ==> clean_item(#[trigger] xs[i])
}

/// A title that keeps to its line and holds no `"## "`.
pub open spec fn clean_title(t: Seq<char>) -> bool {
    has_no(t, '\n') && hh_free(t)
}

/// The lines `"- " + item` of a list.
pub open spec fn dashed(xs: Seq<Seq<char>>) -> Seq<Seq<char>>
    decreases xs.len(),
{
    if xs.len() == 0 {
        Seq::empty()
    } else {
        dashed(xs.drop_last()).push(seq!['-', ' '] + xs.last())
    }
}

/// A heading that renders cleanly: no `#` and no newline in it.
pub open spec fn heading_ok(h: Seq<char>) -> bool {
    has_no(h, '#') && has_no(h, '\n') && h.len() > 0
}

proof fn lemma_hh_free_push_nl(t: Seq<char>)
    requires
        hh_free(t),
    ensures
        hh_free(t.push('\n')),
{
    let s = t.push('\n');
    assert forall|k: int| !#[trigger] matches_at(s, heading_prefix(), k) by {
        if matches_at(s, heading_prefix(), k) {
            if k + 3 <= t.len() {
                assert(s.subrange(k, k + 3) =~= t.subrange(k, k + 3));
                assert(matches_at(t, heading_prefix(), k));
            } else {
                let idx = t.len() - k;
                assert(s.subrange(k, k + 3)[idx] == s[t.len() as int]);
            }
        }
    }
}

proof fn lemma_hh_free_prefix2(c0: char, t: Seq<char>)
    requires
        hh_free(t),
    ensures
        hh_free(seq![c0, ' '] + t),
{
    let s = seq![c0, ' '] + t;
    assert forall|k: int| !#[trigger] matches_at(s, heading_prefix(), k) by {
        if matches_at(s, heading_prefix(), k) {
            if k == 0 {
                assert(s.subrange(0, 3)[1] == s[1]);
            } else if k == 1 {
                assert(s.subrange(1, 4)[0] == s[1]);
            } else {
                assert(s.subrange(k, k + 3) =~= t.subrange(k - 2, k + 1));
                assert(matches_at(t, heading_prefix(), k - 2));
            }
        }
    }
}

proof fn lemma_trim_start_nl_no(x: Seq<char>)
    requires
        x.len() == 0 || x[0] != '\n',
    ensures
        trim_start_nl(x) == x,
{
}

proof fn lemma_trim_end_keep(x: Seq<char>)
    requires
        x.len() == 0 || !is_ws(x.last()),
    ensures
        trim_end_ws(x) == x,
{
}

proof fn lemma_trim_start_keep(x: Seq<char>)
    requires
        x.len() == 0 || !is_ws(x[0]),
    ensures
        trim_start_ws(x) == x,
{
}

/// A text section reads back its text, whole or cut by its last character.
proof fn lemma_text_back(t: Seq<char>)
    requires
        clean_text(t),
    ensures
        trim_end_ws(trim_start_nl(seq!['\n'] + t.push('\n'))) == t,
        trim_end_ws(trim_start_nl(seq!['\n'] + t)) == t,
        hh_free(t.push('\n')),
        ends_nl(t.push('\n')),
        t.push('\n').drop_last() == t,
{
    assert((seq!['\n'] + t.push('\n')).drop_first() =~= t.push('\n'));
    lemma_trim_start_nl_no(t.push('\n'));
    assert(t.push('\n').drop_last() =~= t);
    lemma_trim_end_keep(t);
    assert((seq!['\n'] + t).drop_first() =~= t);
    lemma_trim_start_nl_no(t);
    lemma_hh_free_push_nl(t);
}

pub proof fn lemma_split_concat(a: Seq<char>, b: Seq<char>)
    requires
        a.len() == 0 || a.last() == '\n',
    ensures
        split_nl(a + b) == split_nl(a).drop_last() + split_nl(b),
    decreases b.len(),
{
    if b.len() == 0 {
        assert(a + b =~= a);
        if a.len() == 0 {
            assert(split_nl(a).drop_last() + split_nl(b) =~= split_nl(b));
        } else {
            assert(split_nl(a) == split_nl(a.drop_last()).push(Seq::<char>::empty()));
            assert(split_nl(a).drop_last() + split_nl(b) =~= split_nl(a));
        }
    } else {
        assert((a + b).drop_last() =~= a + b.drop_last());
        lemma_split_concat(a, b.drop_last());
        lemma_split_nonempty(b.drop_last());
        let p = split_nl(a).drop_last();
        let q = split_nl(b.drop_last());
        assert((a + b).last() == b.last());
        if b.last() == '\n' {
            assert((p + q).push(Seq::<char>::empty()) =~= p + q.push(Seq::<char>::empty()));
        } else {
            let l = (p + q);
            assert(l.update(l.len() - 1, l.last().push(b.last())) =~= p + q.update(
                q.len() - 1,
                q.last().push(b.last()),
            ));
        }
    }
}

pub proof fn lemma_split_nonempty(s: Seq<char>)
    ensures
        split_nl(s).len() >= 1,
    decreases s.len(),
{
    if s.len() > 0 {
        lemma_split_nonempty(s.drop_last());
    }
}

proof fn lemma_split_line(y: Seq<char>)
    requires
        has_no(y, '\n'),
    ensures
        split_nl(y) == seq![y],
    decreases y.len(),
{
    if y.len() > 0 {
        assert(has_no(y.drop_last(), '\n'));
        lemma_split_line(y.drop_last());
        assert(y.last() == y[y.len() - 1]);
        assert(y.last() != '\n');
        assert(y.drop_last().push(y.last()) =~= y);
        assert(seq![y.drop_last()].update(0, y.drop_last().push(y.last())) =~= seq![y]);
    } else {
        assert(y =~= Seq::<char>::empty());
    }
}

/// Cutting the lines of a list gives its dashed lines and an empty piece.
proof fn lemma_split_list(xs: Seq<Seq<char>>)
    requires
        clean_items(xs),
    ensures
        split_nl(list_lines(xs)) == dashed(xs).push(Seq::<char>::empty()),
        xs.len() > 0 ==> ends_nl(list_lines(xs)),
        hh_free(list_lines(xs)),
    decreases xs.len(),
{
    if xs.len() == 0 {
        assert(list_lines(xs) =~= Seq::<char>::empty());
        assert(hh_free(Seq::<char>::empty())) by {
            lemma_no_occ_short(Seq::<char>::empty(), heading_prefix());
        }
    } else {
        let init = xs.drop_last();
        let x = xs.last();
        assert(clean_items(init)) by {
            assert forall|i: int| 0 <= i < init.len() implies clean_item(#[trigger] init[i]) by {
                assert(init[i] == xs[i]);
            }
        }
        assert(clean_item(x)) by {
            assert(x == xs[xs.len() - 1]);
        }
        lemma_split_list(init);
        let a = list_lines(init);
        let y = seq!['-', ' '] + x;
        let line = y.push('\n');
        assert(list_lines(xs) =~= a + line);
        assert(has_no(y, '\n'));
        lemma_split_line(y);
        assert(line.drop_last() =~= y);
        assert(split_nl(line) == split_nl(y).push(Seq::<char>::empty()));
        lemma_split_concat(a, line);
        assert(split_nl(list_lines(xs)) =~= dashed(xs).push(Seq::<char>::empty()));
        lemma_hh_free_prefix2('-', x);
        lemma_hh_free_push_nl(y);
        lemma_no_occ_concat(a, line, heading_prefix());
    }
}

/// The dashed lines of clean items read back as the items.
proof fn lemma_bullets_dashed(xs: Seq<Seq<char>>)
    requires
        clean_items(xs),
    ensures
        bullets(dashed(xs)) == xs,
    decreases xs.len(),
{
    if xs.len() > 0 {
        let init = xs.drop_last();
        let x = xs.last();
        assert(clean_items(init)) by {
            assert forall|i: int| 0 <= i < init.len() implies clean_item(#[trigger] init[i]) by {
                assert(init[i] == xs[i]);
            }
        }
        assert(clean_item(x)) by {
            assert(x == xs[xs.len() - 1]);
        }
        lemma_bullets_dashed(init);
        let y = seq!['-', ' '] + x;
        assert(dashed(xs).drop_last() =~= dashed(init));
        assert(dashed(xs).last() == y);
        lemma_trim_end_keep(y);
        lemma_trim_start_keep(y);
        assert(trim_ws(y) == y);
        assert(y.skip(2) =~= x);
        assert(bullet_of(y) == Some(x));
        assert(bullets(dashed(xs)) =~= xs);
    }
}

/// A list section reads back its items, whole or cut by its last character.
proof fn lemma_list_back(xs: Seq<Seq<char>>)
    requires
        clean_items(xs),
        xs.len() > 0,
    ensures
        ({
            let ll = list_lines(xs);
            let t = trim_end_ws(trim_start_nl(seq!['\n'] + ll));
            let t2 = trim_end_ws(trim_start_nl(seq!['\n'] + ll.drop_last()));
            &&& t == ll.drop_last()
            &&& t2 == ll.drop_last()
            &&& t.len() > 0
            &&& bullets(split_nl(t)) == xs
            &&& hh_free(ll)
            &&& ends_nl(ll)
        }),
{
    let ll = list_lines(xs);
    lemma_split_list(xs);
    let x = xs.last();
    assert(clean_item(x)) by {
        assert(x == xs[xs.len() - 1]);
    }
    let init = list_lines(xs.drop_last());
    assert(ll =~= init + (seq!['-', ' '] + x).push('\n'));
    assert(ll[0] == '-') by {
        if init.len() > 0 {
            lemma_list_first(xs.drop_last());
        }
    }
    assert((seq!['\n'] + ll).drop_first() =~= ll);
    lemma_trim_start_nl_no(ll);
    let d = ll.drop_last();
    assert(d.last() == x.last());
    assert(ll.drop_last() =~= d);
    lemma_trim_end_keep(d);
    assert(trim_end_ws(ll) == trim_end_ws(d));
    assert((seq!['\n'] + d).drop_first() =~= d);
    assert(d[0] == ll[0]);
    lemma_trim_start_nl_no(d);
    assert(ll.last() == '\n');
    assert(split_nl(ll) == split_nl(d).push(Seq::<char>::empty()));
    assert(split_nl(ll).drop_last() =~= split_nl(d));
    assert(dashed(xs).push(Seq::<char>::empty()).drop_last() =~= dashed(xs));
    assert(split_nl(d) =~= dashed(xs));
    lemma_bullets_dashed(xs);
}

proof fn lemma_list_first(xs: Seq<Seq<char>>)
    requires
        xs.len() > 0,
    ensures
        list_lines(xs).len() > 0 && list_lines(xs)[0] == '-',
    decreases xs.len(),
{
    let init = xs.drop_last();
    let ll = list_lines(xs);
    assert(ll == list_lines(init) + seq!['-', ' '] + xs.last() + seq!['\n']);
    if init.len() > 0 {
        lemma_list_first(init);
        assert(ll[0] == list_lines(init)[0]);
    } else {
        assert(list_lines(init) =~= Seq::<char>::empty());
        assert(ll[0] == '-');
    }
}

proof fn lemma_title_ok(t: Seq<char>)
    requires
        clean_title(t),
    ensures
        hh_free(title_line(t)),
        ends_nl(title_line(t)),
{
    lemma_hh_free_prefix2('#', t);
    lemma_hh_free_push_nl(seq!['#', ' '] + t);
    assert(title_line(t) =~= (seq!['#', ' '] + t).push('\n'));
}

pub proof fn lemma_all_differ_concat(
    x: Seq<(Seq<char>, Seq<char>)>,
    y: Seq<(Seq<char>, Seq<char>)>,
    h: Seq<char>,
)
    requires
        all_differ(x, h),
        all_differ(y, h),
    ensures
        all_differ(x + y, h),
{
    assert forall|i: int| 0 <= i < (x + y).len() implies differs(h, #[trigger] (x + y)[i].0) by {
        if i < x.len() {
            assert((x + y)[i] == x[i]);
        } else {
            assert((x + y)[i] == y[i - x.len()]);
        }
    }
}

pub proof fn lemma_secs_ok_concat(x: Seq<(Seq<char>, Seq<char>)>, y: Seq<(Seq<char>, Seq<char>)>)
    requires
        secs_ok(x),
        secs_ok(y),
    ensures
        secs_ok(x + y),
{
    assert forall|i: int| 0 <= i < (x + y).len() implies sec_ok(
        #[trigger] (x + y)[i].0,
        (x + y)[i].1,
    ) by {
        if i < x.len() {
            assert((x + y)[i] == x[i]);
        } else {
            assert((x + y)[i] == y[i - x.len()]);
        }
    }
}

/// The section of an optional text: its heading and, if clean, its content.
pub proof fn lemma_text_secs(h: Seq<char>, t: Option<Seq<char>>, q: Seq<char>)
    requires
        heading_ok(h),
        clean_opt(t),
    ensures
        secs_ok(text_secs(h, t)),
        differs(q, h) ==> all_differ(text_secs(h, t), q),
{
    if let Some(x) = t {
        lemma_text_back(x);
        assert(text_secs(h, t)[0] == (h, x.push('\n')));
    }
}

/// The section of a list: its heading and, if clean, its content.
pub proof fn lemma_list_secs(h: Seq<char>, xs: Seq<Seq<char>>, q: Seq<char>)
    requires
        heading_ok(h),
        clean_items(xs),
    ensures
        secs_ok(list_secs(h, xs)),
        differs(q, h) ==> all_differ(list_secs(h, xs), q),
{
    if xs.len() > 0 {
        lemma_list_back(xs);
        assert(list_secs(h, xs)[0] == (h, list_lines(xs)));
    }
}

/// In `title + pre + (h, c) + post`, the raw text of section `h` is
/// `"\n" + c`, whole or cut by its last character.
pub proof fn lemma_body_found(
    title: Seq<char>,
    pre: Seq<(Seq<char>, Seq<char>)>,
    h: Seq<char>,
    c: Seq<char>,
    post: Seq<(Seq<char>, Seq<char>)>,
)
    requires
        hh_free(title),
        ends_nl(title),
        secs_ok(pre),
        all_differ(pre, h),
        heading_ok(h),
        hh_free(c),
        ends_nl(c),
    ensures
        ({
            let b = title + secs_text(pre + seq![(h, c)] + post);
            &&& section_raw(b, h) == Some(seq!['\n'] + c)
            &&& section_raw(b.drop_last(), h) == Some(
                if post.len() == 0 {
                    seq!['\n'] + c.drop_last()
                } else {
                    seq!['\n'] + c
                },
            )
        }),
{
    lemma_secs_concat(pre + seq![(h, c)], post);
    lemma_secs_concat(pre, seq![(h, c)]);
    lemma_secs_single(h, c);
    let p = title + secs_text(pre) + seq!['\n'];
    lemma_secs_no_marker(pre, h);
    lemma_hh_free_marker(title, h);
    assert(has_no(heading_prefix() + h, '\n'));
    lemma_no_occ_concat(title, secs_text(pre), heading_prefix() + h);
    assert((title + secs_text(pre)).last() == '\n') by {
        if pre.len() == 0 {
            assert(title + secs_text(pre) =~= title);
        }
    }
    lemma_no_occ_short(seq!['\n'], heading_prefix() + h);
    lemma_no_occ_concat(title + secs_text(pre), seq!['\n'], heading_prefix() + h);
    if post.len() > 0 {
        lemma_secs_start(post);
    }
    lemma_section_found(p, h, c, secs_text(post));
    let b = title + secs_text(pre + seq![(h, c)] + post);
    assert(b =~= p + heading_prefix() + h + (seq!['\n'] + c) + secs_text(post));
    assert(post.len() == 0 ==> secs_text(post).len() == 0);
}

/// A body without heading `h` has no section `h`, whole or cut.
pub proof fn lemma_body_absent(title: Seq<char>, secs: Seq<(Seq<char>, Seq<char>)>, h: Seq<char>)
    requires
        hh_free(title),
        ends_nl(title),
        secs_ok(secs),
        all_differ(secs, h),
        has_no(h, '\n'),
    ensures
        section_raw(title + secs_text(secs), h) is None,
        section_raw((title + secs_text(secs)).drop_last(), h) is None,
{
    lemma_secs_no_marker(secs, h);
    lemma_hh_free_marker(title, h);
    assert(has_no(heading_prefix() + h, '\n'));
    lemma_no_occ_concat(title, secs_text(secs), heading_prefix() + h);
    lemma_section_absent(title + secs_text(secs), h);
}


/// The section headings, each clean, and pairwise different where two of
/// them can meet in one note.
pub proof fn lemma_headings()
    ensures
        heading_ok("Meaning"@),
        heading_ok("Examples"@),
        heading_ok("Example"@),
        heading_ok("Synonyms"@),
        heading_ok("AI Explanation"@),
        heading_ok("My Notes"@),
        heading_ok("Review"@),
        heading_ok("Content"@),
        heading_ok("Vocabulary"@),
        heading_ok("Summary (AI)"@),
        differs("Meaning"@, "Examples"@),
        differs("Meaning"@, "Synonyms"@),
        differs("Meaning"@, "AI Explanation"@),
        differs("Meaning"@, "My Notes"@),
        differs("Meaning"@, "Review"@),
        differs("Examples"@, "Meaning"@),
        differs("Examples"@, "Synonyms"@),
        differs("Examples"@, "AI Explanation"@),
        differs("Examples"@, "My Notes"@),
        differs("Examples"@, "Review"@),
        differs("Example"@, "Meaning"@),
        differs("Example"@, "Synonyms"@),
        differs("Example"@, "AI Explanation"@),
        differs("Example"@, "My Notes"@),
        differs("Example"@, "Review"@),
        differs("Synonyms"@, "Meaning"@),
        differs("Synonyms"@, "Examples"@),
        differs("Synonyms"@, "AI Explanation"@),
        differs("Synonyms"@, "My Notes"@),
        differs("Synonyms"@, "Review"@),
        differs("AI Explanation"@, "Meaning"@),
        differs("AI Explanation"@, "Examples"@),
        differs("AI Explanation"@, "Synonyms"@),
        differs("AI Explanation"@, "My Notes"@),
        differs("AI Explanation"@, "Review"@),
        differs("My Notes"@, "Meaning"@),
        differs("My Notes"@, "Examples"@),
        differs("My Notes"@, "Synonyms"@),
        differs("My Notes"@, "AI Explanation"@),
        differs("My Notes"@, "Review"@),
        differs("Review"@, "Meaning"@),
        differs("Review"@, "Examples"@),
        differs("Review"@, "Synonyms"@),
        differs("Review"@, "AI Explanation"@),
        differs("Review"@, "My Notes"@),
        differs("Content"@, "Vocabulary"@),
        differs("Content"@, "Summary (AI)"@),
        differs("Content"@, "My Notes"@),
        differs("Vocabulary"@, "Content"@),
        differs("Vocabulary"@, "Summary (AI)"@),
        differs("Vocabulary"@, "My Notes"@),
        differs("Summary (AI)"@, "Content"@),
        differs("Summary (AI)"@, "Vocabulary"@),
        differs("Summary (AI)"@, "My Notes"@),
        differs("My Notes"@, "Content"@),
        differs("My Notes"@, "Vocabulary"@),
        differs("My Notes"@, "Summary (AI)"@),
{
    reveal_strlit("Meaning");
    reveal_strlit("Examples");
    reveal_strlit("Example");
    reveal_strlit("Synonyms");
    reveal_strlit("AI Explanation");
    reveal_strlit("My Notes");
    reveal_strlit("Review");
    reveal_strlit("Content");
    reveal_strlit("Vocabulary");
    reveal_strlit("Summary (AI)");
    let m = "Meaning"@;
    let es = "Examples"@;
    let e = "Example"@;
    let sy = "Synonyms"@;
    let ai = "AI Explanation"@;
    let my = "My Notes"@;
    let r = "Review"@;
    let c = "Content"@;
    let v = "Vocabulary"@;
    let su = "Summary (AI)"@;
    assert(m =~= seq!['M', 'e', 'a', 'n', 'i', 'n', 'g']);
    assert(es =~= seq!['E', 'x', 'a', 'm', 'p', 'l', 'e', 's']);
    assert(e =~= seq!['E', 'x', 'a', 'm', 'p', 'l', 'e']);
    assert(sy =~= seq!['S', 'y', 'n', 'o', 'n', 'y', 'm', 's']);
    assert(ai =~= seq!['A', 'I', ' ', 'E', 'x', 'p', 'l', 'a', 'n', 'a', 't', 'i', 'o', 'n']);
    assert(my =~= seq!['M', 'y', ' ', 'N', 'o', 't', 'e', 's']);
    assert(r =~= seq!['R', 'e', 'v', 'i', 'e', 'w']);
    assert(c =~= seq!['C', 'o', 'n', 't', 'e', 'n', 't']);
    assert(v =~= seq!['V', 'o', 'c', 'a', 'b', 'u', 'l', 'a', 'r', 'y']);
    assert(su =~= seq!['S', 'u', 'm', 'm', 'a', 'r', 'y', ' ', '(', 'A', 'I', ')']);
    assert(m[0] != es[0] && m[0] != sy[0] && m[0] != ai[0] && m[1] != my[1] && m[0] != r[0]);
    assert(es[0] != sy[0] && es[0] != ai[0] && es[0] != my[0] && es[0] != r[0]);
    assert(e[0] != m[0] && e[0] != sy[0] && e[0] != ai[0] && e[0] != my[0] && e[0] != r[0]);
    assert(sy[0] != ai[0] && sy[0] != my[0] && sy[0] != r[0]);
    assert(ai[0] != my[0] && ai[0] != r[0] && my[0] != r[0]);
    assert(c[0] != v[0] && c[0] != su[0] && c[0] != my[0] && v[0] != su[0] && v[0] != my[0]
        && su[0] != my[0]);
}

/// Secure the section facts of two parts for their concatenation.
proof fn lemma_join(x: Seq<(Seq<char>, Seq<char>)>, y: Seq<(Seq<char>, Seq<char>)>, h: Seq<char>)
    requires
        secs_ok(x),
        secs_ok(y),
        all_differ(x, h),
        all_differ(y, h),
    ensures
        secs_ok(x + y),
        all_differ(x + y, h),
{
    lemma_secs_ok_concat(x, y);
    lemma_all_differ_concat(x, y, h);
}

/// A text section between other sections reads back as written.
pub proof fn lemma_text_field(
    title: Seq<char>,
    pre: Seq<(Seq<char>, Seq<char>)>,
    h: Seq<char>,
    t: Option<Seq<char>>,
    post: Seq<(Seq<char>, Seq<char>)>,
)
    requires
        hh_free(title),
        ends_nl(title),
        secs_ok(pre),
        secs_ok(post),
        all_differ(pre, h),
        all_differ(post, h),
        heading_ok(h),
        clean_opt(t),
    ensures
        ({
            let b = title + secs_text(pre + text_secs(h, t) + post);
            section_of(b, h) == t && section_of(b.drop_last(), h) == t
        }),
{
    let b = title + secs_text(pre + text_secs(h, t) + post);
    match t {
        None => {
            assert(pre + text_secs(h, t) + post =~= pre + post);
            lemma_join(pre, post, h);
            lemma_body_absent(title, pre + post, h);
        },
        Some(x) => {
            lemma_text_back(x);
            lemma_body_found(title, pre, h, x.push('\n'), post);
        },
    }
}

/// A list section between other sections reads back as written.
pub proof fn lemma_list_field(
    title: Seq<char>,
    pre: Seq<(Seq<char>, Seq<char>)>,
    h: Seq<char>,
    xs: Seq<Seq<char>>,
    post: Seq<(Seq<char>, Seq<char>)>,
)
    requires
        hh_free(title),
        ends_nl(title),
        secs_ok(pre),
        secs_ok(post),
        all_differ(pre, h),
        all_differ(post, h),
        heading_ok(h),
        clean_items(xs),
    ensures
        ({
            let b = title + secs_text(pre + list_secs(h, xs) + post);
            list_of(b, h) == xs && list_of(b.drop_last(), h) == xs
        }),
{
    if xs.len() == 0 {
        assert(pre + list_secs(h, xs) + post =~= pre + post);
        lemma_join(pre, post, h);
        lemma_body_absent(title, pre + post, h);
        assert(xs =~= Seq::<Seq<char>>::empty());
    } else {
        lemma_list_back(xs);
        lemma_body_found(title, pre, h, list_lines(xs), post);
        let ll = list_lines(xs);
        assert(ll.drop_last().len() > 0);
    }
}

/// Every text of a vocabulary note keeps clear of the markup.
pub open spec fn word_clean(n: WordNote) -> bool {
    &&& clean_title(n.word)
    &&& clean_opt(n.meaning)
    &&& clean_items(n.examples)
    &&& clean_items(n.synonyms)
    &&& clean_opt(n.ai_explanation)
    &&& clean_items(n.my_notes)
    &&& clean_items(n.reviews)
}

/// The sections read from `body` are those of `n`.
pub open spec fn word_body_back(body: Seq<char>, n: WordNote) -> bool {
    &&& section_of(body, "Meaning"@) == n.meaning
    &&& examples_of(body) == n.examples
    &&& list_of(body, "Synonyms"@) == n.synonyms
    &&& section_of(body, "AI Explanation"@) == n.ai_explanation
    &&& list_of(body, "My Notes"@) == n.my_notes
    &&& list_of(body, "Review"@) == n.reviews
}

/// The parts of a vocabulary note's sections.
pub open spec fn word_parts(n: WordNote) -> (
    Seq<(Seq<char>, Seq<char>)>,
    Seq<(Seq<char>, Seq<char>)>,
    Seq<(Seq<char>, Seq<char>)>,
    Seq<(Seq<char>, Seq<char>)>,
    Seq<(Seq<char>, Seq<char>)>,
    Seq<(Seq<char>, Seq<char>)>,
) {
    (
        text_secs("Meaning"@, n.meaning),
        list_secs("Examples"@, n.examples),
        list_secs("Synonyms"@, n.synonyms),
        text_secs("AI Explanation"@, n.ai_explanation),
        list_secs("My Notes"@, n.my_notes),
        list_secs("Review"@, n.reviews),
    )
}

/// Each part of a clean vocabulary note is clean, and differs from every
/// heading `q` that its own heading differs from.
pub(crate) proof fn lemma_word_parts(n: WordNote, q: Seq<char>)
    requires
        word_clean(n),
    ensures
        ({
            let (a, b, c, d, e, f) = word_parts(n);
            &&& secs_ok(a) && secs_ok(b) && secs_ok(c) && secs_ok(d) && secs_ok(e) && secs_ok(f)
            &&& differs(q, "Meaning"@) ==> all_differ(a, q)
            &&& differs(q, "Examples"@) ==> all_differ(b, q)
            &&& differs(q, "Synonyms"@) ==> all_differ(c, q)
            &&& differs(q, "AI Explanation"@) ==> all_differ(d, q)
            &&& differs(q, "My Notes"@) ==> all_differ(e, q)
            &&& differs(q, "Review"@) ==> all_differ(f, q)
        }),
{
    lemma_headings();
    lemma_text_secs("Meaning"@, n.meaning, q);
    lemma_list_secs("Examples"@, n.examples, q);
    lemma_list_secs("Synonyms"@, n.synonyms, q);
    lemma_text_secs("AI Explanation"@, n.ai_explanation, q);
    lemma_list_secs("My Notes"@, n.my_notes, q);
    lemma_list_secs("Review"@, n.reviews, q);
}

pub(crate) proof fn lemma_word_body_parts(n: WordNote)
    requires
        clean_title(n.word),
    ensures
        ({
            let (a, b, c, d, e, f) = word_parts(n);
            word_body(n) == title_line(n.word) + secs_text(a + b + c + d + e + f)
        }),
        hh_free(title_line(n.word)),
        ends_nl(title_line(n.word)),
{
    lemma_title_ok(n.word);
}

proof fn lemma_word_meaning(n: WordNote)
    requires
        word_clean(n),
    ensures
        section_of(word_body(n), "Meaning"@) == n.meaning,
        section_of(word_body(n).drop_last(), "Meaning"@) == n.meaning,
{
    let q = "Meaning"@;
    lemma_headings();
    lemma_word_parts(n, q);
    lemma_word_body_parts(n);
    let (a, b, c, d, e, f) = word_parts(n);
    let none = Seq::<(Seq<char>, Seq<char>)>::empty();
    lemma_join(b, c, q);
    lemma_join(b + c, d, q);
    lemma_join(b + c + d, e, q);
    lemma_join(b + c + d + e, f, q);
    assert(a + b + c + d + e + f =~= none + a + (b + c + d + e + f));
    lemma_text_field(title_line(n.word), none, q, n.meaning, b + c + d + e + f);
}

proof fn lemma_word_examples(n: WordNote)
    requires
        word_clean(n),
    ensures
        examples_of(word_body(n)) == n.examples,
        examples_of(word_body(n).drop_last()) == n.examples,
{
    let q = "Examples"@;
    lemma_headings();
    lemma_word_parts(n, q);
    lemma_word_body_parts(n);
    let (a, b, c, d, e, f) = word_parts(n);
    lemma_join(c, d, q);
    lemma_join(c + d, e, q);
    lemma_join(c + d + e, f, q);
    assert(a + b + c + d + e + f =~= a + b + (c + d + e + f));
    lemma_list_field(title_line(n.word), a, q, n.examples, c + d + e + f);
    if n.examples.len() == 0 {
        let q2 = "Example"@;
        lemma_word_parts(n, q2);
        lemma_join(c, d, q2);
        lemma_join(c + d, e, q2);
        lemma_join(c + d + e, f, q2);
        assert(b =~= list_secs(q2, n.examples));
        lemma_list_field(title_line(n.word), a, q2, n.examples, c + d + e + f);
    }
}

proof fn lemma_word_synonyms(n: WordNote)
    requires
        word_clean(n),
    ensures
        list_of(word_body(n), "Synonyms"@) == n.synonyms,
        list_of(word_body(n).drop_last(), "Synonyms"@) == n.synonyms,
{
    let q = "Synonyms"@;
    lemma_headings();
    lemma_word_parts(n, q);
    lemma_word_body_parts(n);
    let (a, b, c, d, e, f) = word_parts(n);
    lemma_join(a, b, q);
    lemma_join(d, e, q);
    lemma_join(d + e, f, q);
    assert(a + b + c + d + e + f =~= (a + b) + c + (d + e + f));
    lemma_list_field(title_line(n.word), a + b, q, n.synonyms, d + e + f);
}

proof fn lemma_word_ai(n: WordNote)
    requires
        word_clean(n),
    ensures
        section_of(word_body(n), "AI Explanation"@) == n.ai_explanation,
        section_of(word_body(n).drop_last(), "AI Explanation"@) == n.ai_explanation,
{
    let q = "AI Explanation"@;
    lemma_headings();
    lemma_word_parts(n, q);
    lemma_word_body_parts(n);
    let (a, b, c, d, e, f) = word_parts(n);
    lemma_join(a, b, q);
    lemma_join(a + b, c, q);
    lemma_join(e, f, q);
    assert(a + b + c + d + e + f =~= (a + b + c) + d + (e + f));
    lemma_text_field(title_line(n.word), a + b + c, q, n.ai_explanation, e + f);
}

proof fn lemma_word_notes(n: WordNote)
    requires
        word_clean(n),
    ensures
        list_of(word_body(n), "My Notes"@) == n.my_notes,
        list_of(word_body(n).drop_last(), "My Notes"@) == n.my_notes,
{
    let q = "My Notes"@;
    lemma_headings();
    lemma_word_parts(n, q);
    lemma_word_body_parts(n);
    let (a, b, c, d, e, f) = word_parts(n);
    lemma_join(a, b, q);
    lemma_join(a + b, c, q);
    lemma_join(a + b + c, d, q);
    assert(a + b + c + d + e + f =~= (a + b + c + d) + e + f);
    lemma_list_field(title_line(n.word), a + b + c + d, q, n.my_notes, f);
}

proof fn lemma_word_reviews(n: WordNote)
    requires
        word_clean(n),
    ensures
        list_of(word_body(n), "Review"@) == n.reviews,
        list_of(word_body(n).drop_last(), "Review"@) == n.reviews,
{
    let q = "Review"@;
    lemma_headings();
    lemma_word_parts(n, q);
    lemma_word_body_parts(n);
    let (a, b, c, d, e, f) = word_parts(n);
    let none = Seq::<(Seq<char>, Seq<char>)>::empty();
    lemma_join(a, b, q);
    lemma_join(a + b, c, q);
    lemma_join(a + b + c, d, q);
    lemma_join(a + b + c + d, e, q);
    assert(a + b + c + d + e + f =~= (a + b + c + d + e) + f + none);
    lemma_list_field(title_line(n.word), a + b + c + d + e, q, n.reviews, none);
}

/// Reading a written vocabulary note body gives back every section of the
/// note: its meaning, examples, synonyms, AI explanation, notes and review
/// lines. This holds of the body as written and of the body without its
/// final newline, which is how the note's header parser hands it back.
pub proof fn law_word_body_roundtrip(n: WordNote)
    requires
        word_clean(n),
    ensures
        word_body_back(word_body(n), n),
        word_body_back(word_body(n).drop_last(), n),
{
    lemma_word_meaning(n);
    lemma_word_examples(n);
    lemma_word_synonyms(n);
    lemma_word_ai(n);
    lemma_word_notes(n);
    lemma_word_reviews(n);
}


/// Every text of a phrase note keeps clear of the markup.
pub open spec fn phrase_clean(n: PhraseNote) -> bool {
    &&& clean_title(n.phrase)
    &&& clean_opt(n.meaning)
    &&& clean_items(n.examples)
    &&& clean_opt(n.ai_explanation)
    &&& clean_items(n.my_notes)
    &&& clean_items(n.reviews)
}

/// The sections read from `body` are those of `n`.
pub open spec fn phrase_body_back(body: Seq<char>, n: PhraseNote) -> bool {
    &&& section_of(body, "Meaning"@) == n.meaning
    &&& examples_of(body) == n.examples
    &&& section_of(body, "AI Explanation"@) == n.ai_explanation
    &&& list_of(body, "My Notes"@) == n.my_notes
    &&& list_of(body, "Review"@) == n.reviews
}

/// The parts of a phrase note's sections.
pub open spec fn phrase_parts(n: PhraseNote) -> (
    Seq<(Seq<char>, Seq<char>)>,
    Seq<(Seq<char>, Seq<char>)>,
    Seq<(Seq<char>, Seq<char>)>,
    Seq<(Seq<char>, Seq<char>)>,
    Seq<(Seq<char>, Seq<char>)>,
) {
    (
        text_secs("Meaning"@, n.meaning),
        list_secs("Examples"@, n.examples),
        text_secs("AI Explanation"@, n.ai_explanation),
        list_secs("My Notes"@, n.my_notes),
        list_secs("Review"@, n.reviews),
    )
}

pub(crate) proof fn lemma_phrase_parts(n: PhraseNote, q: Seq<char>)
    requires
        phrase_clean(n),
    ensures
        ({
            let (a, b, d, e, f) = phrase_parts(n);
            &&& secs_ok(a) && secs_ok(b) && secs_ok(d) && secs_ok(e) && secs_ok(f)
            &&& differs(q, "Meaning"@) ==> all_differ(a, q)
            &&& differs(q, "Examples"@) ==> all_differ(b, q)
            &&& differs(q, "AI Explanation"@) ==> all_differ(d, q)
            &&& differs(q, "My Notes"@) ==> all_differ(e, q)
            &&& differs(q, "Review"@) ==> all_differ(f, q)
            &&& phrase_body(n) == title_line(n.phrase) + secs_text(a + b + d + e + f)
            &&& hh_free(title_line(n.phrase)) && ends_nl(title_line(n.phrase))
        }),
{
    lemma_headings();
    lemma_title_ok(n.phrase);
    lemma_text_secs("Meaning"@, n.meaning, q);
    lemma_list_secs("Examples"@, n.examples, q);
    lemma_text_secs("AI Explanation"@, n.ai_explanation, q);
    lemma_list_secs("My Notes"@, n.my_notes, q);
    lemma_list_secs("Review"@, n.reviews, q);
}

proof fn lemma_phrase_meaning(n: PhraseNote)
    requires
        phrase_clean(n),
    ensures
        section_of(phrase_body(n), "Meaning"@) == n.meaning,
        section_of(phrase_body(n).drop_last(), "Meaning"@) == n.meaning,
{
    let q = "Meaning"@;
    lemma_headings();
    lemma_phrase_parts(n, q);
    let (a, b, d, e, f) = phrase_parts(n);
    let none = Seq::<(Seq<char>, Seq<char>)>::empty();
    lemma_join(b, d, q);
    lemma_join(b + d, e, q);
    lemma_join(b + d + e, f, q);
    assert(a + b + d + e + f =~= none + a + (b + d + e + f));
    lemma_text_field(title_line(n.phrase), none, q, n.meaning, b + d + e + f);
}

proof fn lemma_phrase_examples(n: PhraseNote)
    requires
        phrase_clean(n),
    ensures
        examples_of(phrase_body(n)) == n.examples,
        examples_of(phrase_body(n).drop_last()) == n.examples,
{
    let q = "Examples"@;
    lemma_headings();
    lemma_phrase_parts(n, q);
    let (a, b, d, e, f) = phrase_parts(n);
    lemma_join(d, e, q);
    lemma_join(d + e, f, q);
    assert(a + b + d + e + f =~= a + b + (d + e + f));
    lemma_list_field(title_line(n.phrase), a, q, n.examples, d + e + f);
    if n.examples.len() == 0 {
        let q2 = "Example"@;
        lemma_phrase_parts(n, q2);
        lemma_join(d, e, q2);
        lemma_join(d + e, f, q2);
        assert(b =~= list_secs(q2, n.examples));
        lemma_list_field(title_line(n.phrase), a, q2, n.examples, d + e + f);
    }
}

proof fn lemma_phrase_ai(n: PhraseNote)
    requires
        phrase_clean(n),
    ensures
        section_of(phrase_body(n), "AI Explanation"@) == n.ai_explanation,
        section_of(phrase_body(n).drop_last(), "AI Explanation"@) == n.ai_explanation,
{
    let q = "AI Explanation"@;
    lemma_headings();
    lemma_phrase_parts(n, q);
    let (a, b, d, e, f) = phrase_parts(n);
    lemma_join(a, b, q);
    lemma_join(e, f, q);
    assert(a + b + d + e + f =~= (a + b) + d + (e + f));
    lemma_text_field(title_line(n.phrase), a + b, q, n.ai_explanation, e + f);
}

proof fn lemma_phrase_notes(n: PhraseNote)
    requires
        phrase_clean(n),
    ensures
        list_of(phrase_body(n), "My Notes"@) == n.my_notes,
        list_of(phrase_body(n).drop_last(), "My Notes"@) == n.my_notes,
{
    let q = "My Notes"@;
    lemma_headings();
    lemma_phrase_parts(n, q);
    let (a, b, d, e, f) = phrase_parts(n);
    lemma_join(a, b, q);
    lemma_join(a + b, d, q);
    assert(a + b + d + e + f =~= (a + b + d) + e + f);
    lemma_list_field(title_line(n.phrase), a + b + d, q, n.my_notes, f);
}

proof fn lemma_phrase_reviews(n: PhraseNote)
    requires
        phrase_clean(n),
    ensures
        list_of(phrase_body(n), "Review"@) == n.reviews,
        list_of(phrase_body(n).drop_last(), "Review"@) == n.reviews,
{
    let q = "Review"@;
    lemma_headings();
    lemma_phrase_parts(n, q);
    let (a, b, d, e, f) = phrase_parts(n);
    let none = Seq::<(Seq<char>, Seq<char>)>::empty();
    lemma_join(a, b, q);
    lemma_join(a + b, d, q);
    lemma_join(a + b + d, e, q);
    assert(a + b + d + e + f =~= (a + b + d + e) + f + none);
    lemma_list_field(title_line(n.phrase), a + b + d + e, q, n.reviews, none);
}

/// Reading a written phrase note body gives back every section of the note:
/// its meaning, examples, AI explanation, notes and review lines, of the
/// body as written and without its final newline.
pub proof fn law_phrase_body_roundtrip(n: PhraseNote)
    requires
        phrase_clean(n),
    ensures
        phrase_body_back(phrase_body(n), n),
        phrase_body_back(phrase_body(n).drop_last(), n),
{
    lemma_phrase_meaning(n);
    lemma_phrase_examples(n);
    lemma_phrase_ai(n);
    lemma_phrase_notes(n);
    lemma_phrase_reviews(n);
}

/// Every text of a reading note keeps clear of the markup; its content may
/// also be empty.
pub open spec fn reading_clean(n: ReadingNote) -> bool {
    &&& clean_title(n.title)
    &&& (n.content.len() == 0 || clean_text(n.content))
    &&& clean_items(n.vocabulary)
    &&& clean_opt(n.summary)
    &&& clean_items(n.my_notes)
}

/// The content read from `body` (empty where there is none).
pub open spec fn content_of(body: Seq<char>) -> Seq<char> {
    match section_of(body, "Content"@) {
        Some(c) => c,
        None => Seq::empty(),
    }
}

/// The sections read from `body` are those of `n`.
pub open spec fn reading_body_back(body: Seq<char>, n: ReadingNote) -> bool {
    &&& content_of(body) == n.content
    &&& list_of(body, "Vocabulary"@) == n.vocabulary
    &&& section_of(body, "Summary (AI)"@) == n.summary
    &&& list_of(body, "My Notes"@) == n.my_notes
}

/// The parts of a reading note's sections.
pub open spec fn reading_parts(n: ReadingNote) -> (
    Seq<(Seq<char>, Seq<char>)>,
    Seq<(Seq<char>, Seq<char>)>,
    Seq<(Seq<char>, Seq<char>)>,
    Seq<(Seq<char>, Seq<char>)>,
) {
    (
        text_secs("Content"@, Some(n.content)),
        list_secs("Vocabulary"@, n.vocabulary),
        text_secs("Summary (AI)"@, n.summary),
        list_secs("My Notes"@, n.my_notes),
    )
}

pub(crate) proof fn lemma_reading_parts(n: ReadingNote, q: Seq<char>)
    requires
        reading_clean(n),
    ensures
        ({
            let (a, b, c, d) = reading_parts(n);
            &&& secs_ok(b) && secs_ok(c) && secs_ok(d)
            &&& differs(q, "Vocabulary"@) ==> all_differ(b, q)
            &&& differs(q, "Summary (AI)"@) ==> all_differ(c, q)
            &&& differs(q, "My Notes"@) ==> all_differ(d, q)
            &&& reading_body(n) == title_line(n.title) + secs_text(a + b + c + d)
            &&& hh_free(title_line(n.title)) && ends_nl(title_line(n.title))
        }),
{
    lemma_headings();
    lemma_title_ok(n.title);
    lemma_list_secs("Vocabulary"@, n.vocabulary, q);
    lemma_text_secs("Summary (AI)"@, n.summary, q);
    lemma_list_secs("My Notes"@, n.my_notes, q);
}

/// The content section of a reading note and its facts: clean, and differing
/// from every other heading of the note.
pub(crate) proof fn lemma_reading_content_part(n: ReadingNote, q: Seq<char>)
    requires
        reading_clean(n),
        differs(q, "Content"@),
    ensures
        secs_ok(text_secs("Content"@, Some(n.content))),
        all_differ(text_secs("Content"@, Some(n.content)), q),
{
    lemma_headings();
    if n.content.len() == 0 {
        let c = n.content.push('\n');
        assert(c =~= seq!['\n']);
        lemma_no_occ_short(c, heading_prefix());
        assert(text_secs("Content"@, Some(n.content))[0] == ("Content"@, c));
    } else {
        lemma_text_secs("Content"@, Some(n.content), q);
    }
}

proof fn lemma_reading_content(n: ReadingNote)
    requires
        reading_clean(n),
    ensures
        content_of(reading_body(n)) == n.content,
        content_of(reading_body(n).drop_last()) == n.content,
{
    let q = "Content"@;
    lemma_headings();
    lemma_reading_parts(n, q);
    let (a, b, c, d) = reading_parts(n);
    let none = Seq::<(Seq<char>, Seq<char>)>::empty();
    lemma_join(b, c, q);
    lemma_join(b + c, d, q);
    assert(a + b + c + d =~= none + a + (b + c + d));
    if n.content.len() == 0 {
        let cc = n.content.push('\n');
        assert(cc =~= seq!['\n']);
        lemma_no_occ_short(cc, heading_prefix());
        assert(a =~= seq![(q, cc)]);
        lemma_body_found(title_line(n.title), none, q, cc, b + c + d);
        let body = reading_body(n);
        let two = seq!['\n', '\n'];
        assert(seq!['\n'] + cc =~= two);
        let one = seq!['\n'];
        let zero = Seq::<char>::empty();
        assert(two.drop_first() =~= one);
        assert(one.drop_first() =~= zero);
        assert(trim_start_nl(zero) == zero);
        assert(one[0] == '\n');
        assert(trim_start_nl(one) == trim_start_nl(one.drop_first()));
        assert(trim_start_nl(one) == zero);
        assert(two[0] == '\n');
        assert(trim_start_nl(two) == trim_start_nl(two.drop_first()));
        assert(trim_start_nl(two) =~= zero);
        assert(seq!['\n'] + cc.drop_last() =~= seq!['\n']);
        assert(trim_start_nl(seq!['\n']) =~= Seq::<char>::empty());
        assert(trim_end_ws(Seq::<char>::empty()) =~= Seq::<char>::empty());
        assert(section_of(body, q) is None);
        assert(section_of(body.drop_last(), q) is None);
        assert(n.content =~= Seq::<char>::empty());
    } else {
        lemma_text_field(title_line(n.title), none, q, Some(n.content), b + c + d);
    }
}

proof fn lemma_reading_vocabulary(n: ReadingNote)
    requires
        reading_clean(n),
    ensures
        list_of(reading_body(n), "Vocabulary"@) == n.vocabulary,
        list_of(reading_body(n).drop_last(), "Vocabulary"@) == n.vocabulary,
{
    let q = "Vocabulary"@;
    lemma_headings();
    lemma_reading_parts(n, q);
    lemma_reading_content_part(n, q);
    let (a, b, c, d) = reading_parts(n);
    lemma_join(c, d, q);
    assert(a + b + c + d =~= a + b + (c + d));
    lemma_list_field(title_line(n.title), a, q, n.vocabulary, c + d);
}

proof fn lemma_reading_summary(n: ReadingNote)
    requires
        reading_clean(n),
    ensures
        section_of(reading_body(n), "Summary (AI)"@) == n.summary,
        section_of(reading_body(n).drop_last(), "Summary (AI)"@) == n.summary,
{
    let q = "Summary (AI)"@;
    lemma_headings();
    lemma_reading_parts(n, q);
    lemma_reading_content_part(n, q);
    let (a, b, c, d) = reading_parts(n);
    lemma_join(a, b, q);
    assert(a + b + c + d =~= (a + b) + c + d);
    lemma_text_field(title_line(n.title), a + b, q, n.summary, d);
}

proof fn lemma_reading_notes(n: ReadingNote)
    requires
        reading_clean(n),
    ensures
        list_of(reading_body(n), "My Notes"@) == n.my_notes,
        list_of(reading_body(n).drop_last(), "My Notes"@) == n.my_notes,
{
    let q = "My Notes"@;
    lemma_headings();
    lemma_reading_parts(n, q);
    lemma_reading_content_part(n, q);
    let (a, b, c, d) = reading_parts(n);
    let none = Seq::<(Seq<char>, Seq<char>)>::empty();
    lemma_join(a, b, q);
    lemma_join(a + b, c, q);
    assert(a + b + c + d =~= (a + b + c) + d + none);
    lemma_list_field(title_line(n.title), a + b + c, q, n.my_notes, none);
}

/// Reading a written reading note body gives back its content (an empty
/// content too), vocabulary, summary and notes, of the body as written and
/// without its final newline.
pub proof fn law_reading_body_roundtrip(n: ReadingNote)
    requires
        reading_clean(n),
    ensures
        reading_body_back(reading_body(n), n),
        reading_body_back(reading_body(n).drop_last(), n),
{
    lemma_reading_content(n);
    lemma_reading_vocabulary(n);
    lemma_reading_summary(n);
    lemma_reading_notes(n);
}

} // verus!
