//! A written note read back whole: gray_matter splits the header block off
//! a written note exactly, so its body comes back section for section.

use vstd::prelude::*;
use crate::text::{decimal, trim_end_ws, trim_start_nl, is_ws};
use crate::section::split_nl;
use crate::layout::{ends_nl, has_no, lemma_secs_concat, secs_ok, secs_text};
use crate::note::{field_line, list_lines, list_secs, opt_field_line, text_secs, title_line};
use crate::front_matter::{delimited, gray_matter_parsed, no_delimiter_line, PodView};
use crate::datetime::{
    chrono_parsed, full_format, full_text, lemma_digits_no_nl, lemma_full_text_one_line, DateTime,
};
use crate::note::NoteError;
use crate::markdown::{
    date_line, phrase_body, phrase_header, phrase_markdown, phrase_parse, reading_body,
    reading_header, reading_markdown, reading_parse, word_body, word_header, word_markdown,
    word_parse, PhraseNote, ReadingNote, WordNote,
};
use crate::roundtrip::{
    lemma_headings, lemma_phrase_parts, lemma_reading_content_part, lemma_reading_parts, lemma_secs_ok_concat,
    lemma_word_body_parts, lemma_word_parts, phrase_clean, phrase_parts, reading_clean,
    reading_parts, word_clean, word_parts, law_phrase_body_roundtrip, law_reading_body_roundtrip,
    law_word_body_roundtrip,
};

verus! {

/// No line of `s` starts with `-`.
pub open spec fn lines_start_ok(s: Seq<char>) -> bool {
    forall|j: int| 0 <= j < s.len() && (j == 0 || s[j - 1] == '\n') ==> #[trigger] s[j] != '-'
}

/// `s` is empty or ends with a newline.
pub open spec fn line_end(s: Seq<char>) -> bool {
    s.len() == 0 || s.last() == '\n'
}

proof fn lemma_split_nl_starts(s: Seq<char>)
    ensures
        split_nl(s).len() >= 1,
        split_nl(s).last().len() == 0 ==> line_end(s),
        forall|i: int|
            0 <= i < split_nl(s).len() && #[trigger] split_nl(s)[i].len() > 0 ==> exists|j: int|
                #![trigger s[j]]
                0 <= j < s.len() && (j == 0 || s[j - 1] == '\n') && s[j] == split_nl(s)[i][0],
    decreases s.len(),
{
    if s.len() > 0 {
        let t = s.drop_last();
        lemma_split_nl_starts(t);
        let init = split_nl(t);
        let k = init.len() - 1;
        assert forall|i: int|
            0 <= i < split_nl(s).len() && #[trigger] split_nl(s)[i].len() > 0 implies exists|j: int|
                #![trigger s[j]]
                0 <= j < s.len() && (j == 0 || s[j - 1] == '\n') && s[j] == split_nl(s)[i][0] by {
            if i < k || (i == k && s.last() == '\n') {
                assert(split_nl(s)[i] == init[i]);
                assert(init[i].len() > 0);
                let j = choose|j: int|
                    #![trigger t[j]]
                    0 <= j < t.len() && (j == 0 || t[j - 1] == '\n') && t[j] == init[i][0];
                assert(s[j] == t[j]);
                assert(j == 0 || s[j - 1] == t[j - 1]);
            } else {
                assert(s.last() != '\n');
                assert(i == k);
                let p = init[k];
                assert(split_nl(s)[i] == p.push(s.last()));
                if p.len() > 0 {
                    let j = choose|j: int|
                        #![trigger t[j]]
                        0 <= j < t.len() && (j == 0 || t[j - 1] == '\n') && t[j] == init[k][0];
                    assert(s[j] == t[j]);
                    assert(j == 0 || s[j - 1] == t[j - 1]);
                } else {
                    let j = s.len() - 1;
                    assert(j == 0 || s[j - 1] == t.last());
                    assert(s[j] == split_nl(s)[i][0]);
                }
            }
        }
    }
}

proof fn lemma_trim_end_prefix(p: Seq<char>)
    ensures
        trim_end_ws(p).len() <= p.len(),
        forall|i: int| 0 <= i < trim_end_ws(p).len() ==> #[trigger] trim_end_ws(p)[i] == p[i],
    decreases p.len(),
{
    if p.len() > 0 && is_ws(p.last()) {
        lemma_trim_end_prefix(p.drop_last());
    }
}

/// A text whose lines do not start with `-` has no `---` line.
pub proof fn lemma_no_delimiter(s: Seq<char>)
    requires
        lines_start_ok(s),
    ensures
        no_delimiter_line(s),
{
    lemma_split_nl_starts(s);
    assert forall|i: int| 0 <= i < split_nl(s).len() implies trim_end_ws(
        #[trigger] split_nl(s)[i],
    ) != seq!['-', '-', '-'] by {
        let p = split_nl(s)[i];
        if trim_end_ws(p) == seq!['-', '-', '-'] {
            lemma_trim_end_prefix(p);
            assert(trim_end_ws(p)[0] == '-');
            assert(p[0] == '-');
            assert(split_nl(s)[i].len() > 0);
            let j = choose|j: int|
                #![trigger s[j]]
                0 <= j < s.len() && (j == 0 || s[j - 1] == '\n') && s[j] == split_nl(s)[i][0];
            assert(s[j] == '-');
        }
    }
}

/// Lines joined after whole lines.
pub proof fn lemma_lines_concat(a: Seq<char>, b: Seq<char>)
    requires
        lines_start_ok(a),
        lines_start_ok(b),
        line_end(a),
    ensures
        lines_start_ok(a + b),
        line_end(b) ==> line_end(a + b),
{
    let s = a + b;
    assert forall|j: int| 0 <= j < s.len() && (j == 0 || s[j - 1] == '\n') implies #[trigger] s[j]
        != '-' by {
        if j < a.len() {
            assert(s[j] == a[j]);
            assert(j == 0 || s[j - 1] == a[j - 1]);
        } else {
            let m = j - a.len();
            assert(s[j] == b[m]);
            if m > 0 {
                assert(s[j - 1] == b[m - 1]);
            }
        }
    }
    if b.len() == 0 {
        assert(s =~= a);
    }
}

/// A header line `key` + `value` + newline, with a key that does not start
/// with `-` and no newline before the last.
pub proof fn lemma_field_line(key: Seq<char>, v: Seq<char>)
    requires
        key.len() > 0,
        key[0] != '-',
        has_no(key, '\n'),
        has_no(v, '\n'),
    ensures
        lines_start_ok(field_line(key, v)),
        line_end(field_line(key, v)),
{
    let s = field_line(key, v);
    assert forall|j: int| 0 <= j < s.len() && (j == 0 || s[j - 1] == '\n') implies #[trigger] s[j]
        != '-' by {
        if j > 0 {
            let m = j - 1;
            if m < key.len() {
                assert(s[m] == key[m]);
            } else {
                assert(s[m] == v[m - key.len()]);
            }
        }
        assert(s[0] == key[0]);
    }
}

/// A header line for an optional value.
pub proof fn lemma_opt_field_line(key: Seq<char>, v: Option<Seq<char>>)
    requires
        key.len() > 0,
        key[0] != '-',
        has_no(key, '\n'),
        v matches Some(x) ==> has_no(x, '\n'),
    ensures
        lines_start_ok(opt_field_line(key, v)),
        line_end(opt_field_line(key, v)),
{
    if let Some(x) = v {
        lemma_field_line(key, x);
    }
}

/// An integer written in decimal keeps to one line.
pub proof fn lemma_decimal_one_line(n: int)
    ensures
        has_no(decimal(n), '\n'),
{
    if n < 0 {
        lemma_digits_no_nl((-n) as nat);
    } else {
        lemma_digits_no_nl(n as nat);
    }
}

/// No value of `xs` holds `c`.
pub open spec fn items_have_no(xs: Seq<Seq<char>>, c: char) -> bool {
    forall|i: int| 0 <= i < xs.len() ==> has_no(#[trigger] xs[i], c)
}

/// An optional value that does not hold `c`.
pub open spec fn opt_has_no(t: Option<Seq<char>>, c: char) -> bool {
    t matches Some(x) ==> has_no(x, c)
}

/// No heading or content of `secs` holds `c`.
pub open spec fn secs_have_no(secs: Seq<(Seq<char>, Seq<char>)>, c: char) -> bool {
    forall|i: int| 0 <= i < secs.len() ==> has_no(#[trigger] secs[i].0, c) && has_no(secs[i].1, c)
}

pub proof fn lemma_has_no_concat(a: Seq<char>, b: Seq<char>, c: char)
    requires
        has_no(a, c),
        has_no(b, c),
    ensures
        has_no(a + b, c),
{
    assert forall|i: int| 0 <= i < (a + b).len() implies (a + b)[i] != c by {
        if i < a.len() {
            assert((a + b)[i] == a[i]);
        } else {
            assert((a + b)[i] == b[i - a.len()]);
        }
    }
}

proof fn lemma_list_lines_no(xs: Seq<Seq<char>>, c: char)
    requires
        items_have_no(xs, c),
        c != '-',
        c != ' ',
        c != '\n',
    ensures
        has_no(list_lines(xs), c),
    decreases xs.len(),
{
    if xs.len() > 0 {
        assert(items_have_no(xs.drop_last(), c)) by {
            assert forall|i: int| 0 <= i < xs.drop_last().len() implies has_no(
                #[trigger] xs.drop_last()[i],
                c,
            ) by {
                assert(xs.drop_last()[i] == xs[i]);
            }
        }
        lemma_list_lines_no(xs.drop_last(), c);
        assert(has_no(xs[xs.len() - 1], c));
        lemma_has_no_concat(list_lines(xs.drop_last()), seq!['-', ' '], c);
        lemma_has_no_concat(list_lines(xs.drop_last()) + seq!['-', ' '], xs.last(), c);
        lemma_has_no_concat(list_lines(xs.drop_last()) + seq!['-', ' '] + xs.last(), seq!['\n'], c);
    }
}

proof fn lemma_secs_no(secs: Seq<(Seq<char>, Seq<char>)>, c: char)
    requires
        secs_have_no(secs, c),
        c != '\n',
        c != '#',
        c != ' ',
    ensures
        has_no(secs_text(secs), c),
    decreases secs.len(),
{
    if secs.len() > 0 {
        let init = secs.drop_last();
        assert(secs_have_no(init, c)) by {
            assert forall|i: int| 0 <= i < init.len() implies has_no(#[trigger] init[i].0, c)
                && has_no(init[i].1, c) by {
                assert(init[i] == secs[i]);
            }
        }
        lemma_secs_no(init, c);
        let (h, t) = secs.last();
        assert(has_no(secs[secs.len() - 1].0, c));
        lemma_has_no_concat(seq!['\n', '#', '#', ' '], h, c);
        lemma_has_no_concat(seq!['\n', '#', '#', ' '] + h, seq!['\n'], c);
        lemma_has_no_concat(seq!['\n', '#', '#', ' '] + h + seq!['\n'], t, c);
        lemma_has_no_concat(secs_text(init), seq!['\n', '#', '#', ' '] + h + seq!['\n'] + t, c);
        assert(secs_text(secs) =~= secs_text(init) + (seq!['\n', '#', '#', ' '] + h + seq!['\n']
            + t));
    }
}

proof fn lemma_secs_have_no_concat(
    a: Seq<(Seq<char>, Seq<char>)>,
    b: Seq<(Seq<char>, Seq<char>)>,
    c: char,
)
    requires
        secs_have_no(a, c),
        secs_have_no(b, c),
    ensures
        secs_have_no(a + b, c),
{
    assert forall|i: int| 0 <= i < (a + b).len() implies has_no(#[trigger] (a + b)[i].0, c)
        && has_no((a + b)[i].1, c) by {
        if i < a.len() {
            assert((a + b)[i] == a[i]);
            assert(has_no(a[i].0, c));
        } else {
            assert((a + b)[i] == b[i - a.len()]);
            assert(has_no(b[i - a.len()].0, c));
        }
    }
}

proof fn lemma_text_secs_no(h: Seq<char>, t: Option<Seq<char>>, c: char)
    requires
        has_no(h, c),
        opt_has_no(t, c),
        c != '\n',
    ensures
        secs_have_no(text_secs(h, t), c),
{
    if let Some(x) = t {
        lemma_has_no_concat(x, seq!['\n'], c);
        assert(x.push('\n') =~= x + seq!['\n']);
        assert(text_secs(h, t)[0] == (h, x.push('\n')));
    }
}

proof fn lemma_list_secs_no(h: Seq<char>, xs: Seq<Seq<char>>, c: char)
    requires
        has_no(h, c),
        items_have_no(xs, c),
        c != '-',
        c != ' ',
        c != '\n',
    ensures
        secs_have_no(list_secs(h, xs), c),
{
    if xs.len() > 0 {
        lemma_list_lines_no(xs, c);
        assert(list_secs(h, xs)[0] == (h, list_lines(xs)));
    }
}

proof fn lemma_secs_end(secs: Seq<(Seq<char>, Seq<char>)>)
    requires
        secs_ok(secs),
    ensures
        line_end(secs_text(secs)),
{
    if secs.len() > 0 {
        assert(crate::layout::sec_ok(secs[secs.len() - 1].0, secs[secs.len() - 1].1));
        let (h, t) = secs.last();
        let last = seq!['\n', '#', '#', ' '] + h + seq!['\n'] + t;
        assert(secs_text(secs) =~= secs_text(secs.drop_last()) + last);
        assert(last.last() == t.last());
    }
}

/// A written body after its blank line: no carriage return, a final
/// newline, and what gray_matter hands on of it is the body without its
/// last newline.
proof fn lemma_body_text(title: Seq<char>, secs: Seq<(Seq<char>, Seq<char>)>)
    requires
        has_no(title, '\r'),
        secs_ok(secs),
        secs_have_no(secs, '\r'),
    ensures
        ({
            let b = title_line(title) + secs_text(secs);
            let rest = seq!['\n'] + b;
            &&& has_no(rest, '\r')
            &&& ends_nl(rest)
            &&& trim_start_nl(rest.drop_last()) == b.drop_last()
        }),
{
    let tl = title_line(title);
    let b = tl + secs_text(secs);
    let rest = seq!['\n'] + b;
    lemma_has_no_concat(seq!['#', ' '], title, '\r');
    lemma_has_no_concat(seq!['#', ' '] + title, seq!['\n'], '\r');
    lemma_secs_no(secs, '\r');
    lemma_has_no_concat(tl, secs_text(secs), '\r');
    lemma_has_no_concat(seq!['\n'], b, '\r');
    lemma_secs_end(secs);
    if secs_text(secs).len() == 0 {
        assert(b =~= tl);
    } else {
        assert(b.last() == secs_text(secs).last());
    }
    assert(ends_nl(b));
    assert(rest.last() == b.last());
    let x = b.drop_last();
    assert(rest.drop_last() =~= seq!['\n'] + x);
    assert((seq!['\n'] + x).drop_first() =~= x);
    assert((seq!['\n'] + x)[0] == '\n');
    assert(trim_start_nl(seq!['\n'] + x) == trim_start_nl(x));
    assert(x[0] == '#');
}

/// A header key that opens its line cleanly.
pub open spec fn key_ok(k: Seq<char>) -> bool {
    k.len() > 0 && k[0] != '-' && has_no(k, '\n')
}

proof fn lemma_keys()
    ensures
        key_ok("word: "@),
        key_ok("phonetic: "@),
        key_ok("familiarity: "@),
        key_ok("interval: "@),
        key_ok("next_review: "@),
        key_ok("phrase: "@),
        key_ok("title: "@),
        key_ok("source: "@),
{
    reveal_strlit("word: ");
    reveal_strlit("phonetic: ");
    reveal_strlit("familiarity: ");
    reveal_strlit("interval: ");
    reveal_strlit("next_review: ");
    reveal_strlit("phrase: ");
    reveal_strlit("title: ");
    reveal_strlit("source: ");
}

proof fn lemma_headings_no_cr()
    ensures
        has_no("Meaning"@, '\r'),
        has_no("Examples"@, '\r'),
        has_no("Synonyms"@, '\r'),
        has_no("AI Explanation"@, '\r'),
        has_no("My Notes"@, '\r'),
        has_no("Review"@, '\r'),
        has_no("Content"@, '\r'),
        has_no("Vocabulary"@, '\r'),
        has_no("Summary (AI)"@, '\r'),
{
    reveal_strlit("Meaning");
    reveal_strlit("Examples");
    reveal_strlit("Synonyms");
    reveal_strlit("AI Explanation");
    reveal_strlit("My Notes");
    reveal_strlit("Review");
    reveal_strlit("Content");
    reveal_strlit("Vocabulary");
    reveal_strlit("Summary (AI)");
}

/// The header lines of the counters and the review date of a note.
proof fn lemma_counter_lines(fam: i32, ivl: i32, d: Option<crate::datetime::DateTime>)
    ensures
        ({
            let s = field_line("familiarity: "@, decimal(fam as int)) + field_line(
                "interval: "@,
                decimal(ivl as int),
            ) + date_line(d);
            lines_start_ok(s) && line_end(s)
        }),
{
    lemma_keys();
    lemma_decimal_one_line(fam as int);
    lemma_decimal_one_line(ivl as int);
    let a = field_line("familiarity: "@, decimal(fam as int));
    let b = field_line("interval: "@, decimal(ivl as int));
    lemma_field_line("familiarity: "@, decimal(fam as int));
    lemma_field_line("interval: "@, decimal(ivl as int));
    match d {
        Some(x) => {
            lemma_full_text_one_line(x);
            lemma_field_line("next_review: "@, full_text(x));
        },
        None => {},
    }
    lemma_lines_concat(a, b);
    lemma_lines_concat(a + b, date_line(d));
}

/// A vocabulary note that reads back as written: its sections are clean,
/// its word and phonetic keep to one line, and no value holds a carriage
/// return.
pub open spec fn word_writable(n: WordNote) -> bool {
    &&& word_clean(n)
    &&& opt_has_no(n.phonetic, '\n')
    &&& has_no(n.word, '\r')
    &&& opt_has_no(n.meaning, '\r')
    &&& items_have_no(n.examples, '\r')
    &&& items_have_no(n.synonyms, '\r')
    &&& opt_has_no(n.ai_explanation, '\r')
    &&& items_have_no(n.my_notes, '\r')
    &&& items_have_no(n.reviews, '\r')
}

/// The text of a writable vocabulary note in the form that gray_matter
/// splits exactly.
pub proof fn lemma_word_text(n: WordNote)
    requires
        word_writable(n),
    ensures
        word_markdown(n) == delimited(word_header(n), seq!['\n'] + word_body(n)),
        line_end(word_header(n)),
        no_delimiter_line(word_header(n)),
        has_no(seq!['\n'] + word_body(n), '\r'),
        ends_nl(seq!['\n'] + word_body(n)),
        trim_start_nl((seq!['\n'] + word_body(n)).drop_last()) == word_body(n).drop_last(),
{
    lemma_keys();
    let w = field_line("word: "@, n.word);
    let p = opt_field_line("phonetic: "@, n.phonetic);
    let rest = field_line("familiarity: "@, decimal(n.familiarity as int)) + field_line(
        "interval: "@,
        decimal(n.interval as int),
    ) + date_line(n.next_review);
    lemma_field_line("word: "@, n.word);
    lemma_opt_field_line("phonetic: "@, n.phonetic);
    lemma_counter_lines(n.familiarity, n.interval, n.next_review);
    lemma_lines_concat(w, p);
    lemma_lines_concat(w + p, rest);
    assert(word_header(n) =~= w + p + rest);
    lemma_no_delimiter(word_header(n));
    let q = "Meaning"@;
    lemma_word_parts(n, q);
    lemma_word_body_parts(n);
    lemma_headings_no_cr();
    let (a, b, c, d, e, f) = word_parts(n);
    lemma_secs_ok_concat(a, b);
    lemma_secs_ok_concat(a + b, c);
    lemma_secs_ok_concat(a + b + c, d);
    lemma_secs_ok_concat(a + b + c + d, e);
    lemma_secs_ok_concat(a + b + c + d + e, f);
    lemma_text_secs_no("Meaning"@, n.meaning, '\r');
    lemma_list_secs_no("Examples"@, n.examples, '\r');
    lemma_list_secs_no("Synonyms"@, n.synonyms, '\r');
    lemma_text_secs_no("AI Explanation"@, n.ai_explanation, '\r');
    lemma_list_secs_no("My Notes"@, n.my_notes, '\r');
    lemma_list_secs_no("Review"@, n.reviews, '\r');
    lemma_secs_have_no_concat(a, b, '\r');
    lemma_secs_have_no_concat(a + b, c, '\r');
    lemma_secs_have_no_concat(a + b + c, d, '\r');
    lemma_secs_have_no_concat(a + b + c + d, e, '\r');
    lemma_secs_have_no_concat(a + b + c + d + e, f, '\r');
    lemma_body_text(n.word, a + b + c + d + e + f);
}

/// A phrase note that reads back as written: its sections are clean and no
/// value holds a carriage return.
pub open spec fn phrase_writable(n: PhraseNote) -> bool {
    &&& phrase_clean(n)
    &&& has_no(n.phrase, '\r')
    &&& opt_has_no(n.meaning, '\r')
    &&& items_have_no(n.examples, '\r')
    &&& opt_has_no(n.ai_explanation, '\r')
    &&& items_have_no(n.my_notes, '\r')
    &&& items_have_no(n.reviews, '\r')
}

/// The text of a writable phrase note in the form that gray_matter splits
/// exactly.
pub proof fn lemma_phrase_text(n: PhraseNote)
    requires
        phrase_writable(n),
    ensures
        phrase_markdown(n) == delimited(phrase_header(n), seq!['\n'] + phrase_body(n)),
        line_end(phrase_header(n)),
        no_delimiter_line(phrase_header(n)),
        has_no(seq!['\n'] + phrase_body(n), '\r'),
        ends_nl(seq!['\n'] + phrase_body(n)),
        trim_start_nl((seq!['\n'] + phrase_body(n)).drop_last()) == phrase_body(n).drop_last(),
{
    lemma_keys();
    let w = field_line("phrase: "@, n.phrase);
    let rest = field_line("familiarity: "@, decimal(n.familiarity as int)) + field_line(
        "interval: "@,
        decimal(n.interval as int),
    ) + date_line(n.next_review);
    lemma_field_line("phrase: "@, n.phrase);
    lemma_counter_lines(n.familiarity, n.interval, n.next_review);
    lemma_lines_concat(w, rest);
    assert(phrase_header(n) =~= w + rest);
    lemma_no_delimiter(phrase_header(n));
    let q = "Meaning"@;
    lemma_phrase_parts(n, q);
    lemma_headings_no_cr();
    let (a, b, d, e, f) = phrase_parts(n);
    lemma_secs_ok_concat(a, b);
    lemma_secs_ok_concat(a + b, d);
    lemma_secs_ok_concat(a + b + d, e);
    lemma_secs_ok_concat(a + b + d + e, f);
    lemma_text_secs_no("Meaning"@, n.meaning, '\r');
    lemma_list_secs_no("Examples"@, n.examples, '\r');
    lemma_text_secs_no("AI Explanation"@, n.ai_explanation, '\r');
    lemma_list_secs_no("My Notes"@, n.my_notes, '\r');
    lemma_list_secs_no("Review"@, n.reviews, '\r');
    lemma_secs_have_no_concat(a, b, '\r');
    lemma_secs_have_no_concat(a + b, d, '\r');
    lemma_secs_have_no_concat(a + b + d, e, '\r');
    lemma_secs_have_no_concat(a + b + d + e, f, '\r');
    lemma_body_text(n.phrase, a + b + d + e + f);
}

/// A reading note that reads back as written: its sections are clean, its
/// source keeps to one line, and no value holds a carriage return.
pub open spec fn reading_writable(n: ReadingNote) -> bool {
    &&& reading_clean(n)
    &&& opt_has_no(n.source, '\n')
    &&& has_no(n.title, '\r')
    &&& has_no(n.content, '\r')
    &&& items_have_no(n.vocabulary, '\r')
    &&& opt_has_no(n.summary, '\r')
    &&& items_have_no(n.my_notes, '\r')
}

/// The text of a writable reading note in the form that gray_matter splits
/// exactly.
pub proof fn lemma_reading_text(n: ReadingNote)
    requires
        reading_writable(n),
    ensures
        reading_markdown(n) == delimited(reading_header(n), seq!['\n'] + reading_body(n)),
        line_end(reading_header(n)),
        no_delimiter_line(reading_header(n)),
        has_no(seq!['\n'] + reading_body(n), '\r'),
        ends_nl(seq!['\n'] + reading_body(n)),
        trim_start_nl((seq!['\n'] + reading_body(n)).drop_last()) == reading_body(n).drop_last(),
{
    lemma_keys();
    let t = if n.title.len() > 0 {
        field_line("title: "@, n.title)
    } else {
        Seq::empty()
    };
    let src = opt_field_line("source: "@, n.source);
    if n.title.len() > 0 {
        lemma_field_line("title: "@, n.title);
    }
    lemma_opt_field_line("source: "@, n.source);
    lemma_lines_concat(t, src);
    assert(reading_header(n) =~= t + src);
    lemma_no_delimiter(reading_header(n));
    let q = "Vocabulary"@;
    lemma_headings();
    lemma_reading_parts(n, q);
    lemma_reading_content_part(n, q);
    lemma_headings_no_cr();
    let (a, b, c, d) = reading_parts(n);
    lemma_secs_ok_concat(a, b);
    lemma_secs_ok_concat(a + b, c);
    lemma_secs_ok_concat(a + b + c, d);
    lemma_text_secs_no("Content"@, Some(n.content), '\r');
    lemma_list_secs_no("Vocabulary"@, n.vocabulary, '\r');
    lemma_text_secs_no("Summary (AI)"@, n.summary, '\r');
    lemma_list_secs_no("My Notes"@, n.my_notes, '\r');
    lemma_secs_have_no_concat(a, b, '\r');
    lemma_secs_have_no_concat(a + b, c, '\r');
    lemma_secs_have_no_concat(a + b + c, d, '\r');
    lemma_body_text(n.title, a + b + c + d);
}

/// `a` has the sections of `b`.
pub open spec fn word_sections_agree(a: WordNote, b: WordNote) -> bool {
    &&& a.meaning == b.meaning
    &&& a.examples == b.examples
    &&& a.synonyms == b.synonyms
    &&& a.ai_explanation == b.ai_explanation
    &&& a.my_notes == b.my_notes
    &&& a.reviews == b.reviews
}

/// `a` has the sections of `b`.
pub open spec fn phrase_sections_agree(a: PhraseNote, b: PhraseNote) -> bool {
    &&& a.meaning == b.meaning
    &&& a.examples == b.examples
    &&& a.ai_explanation == b.ai_explanation
    &&& a.my_notes == b.my_notes
    &&& a.reviews == b.reviews
}

/// `a` has the sections of `b`.
pub open spec fn reading_sections_agree(a: ReadingNote, b: ReadingNote) -> bool {
    &&& a.content == b.content
    &&& a.vocabulary == b.vocabulary
    &&& a.summary == b.summary
    &&& a.my_notes == b.my_notes
}

/// chrono reads back the review date it wrote, if there is one.
pub open spec fn date_reads_back(d: Option<DateTime>) -> bool {
    d matches Some(x) ==> chrono_parsed(full_text(x), full_format()) == Some(x)
}

/// The header data of a written vocabulary note, where the YAML engine reads
/// each written line `key: value` back: the texts as texts, the counters as
/// integers, and no other key.
pub open spec fn word_header_data(n: WordNote) -> PodView {
    let m = Map::<Seq<char>, PodView>::empty().insert("word"@, PodView::Text(n.word)).insert(
        "familiarity"@,
        PodView::Integer(n.familiarity as int),
    ).insert("interval"@, PodView::Integer(n.interval as int));
    let m = match n.phonetic {
        Some(p) => m.insert("phonetic"@, PodView::Text(p)),
        None => m,
    };
    let m = match n.next_review {
        Some(d) => m.insert("next_review"@, PodView::Text(full_text(d))),
        None => m,
    };
    PodView::Hash(m)
}

/// The header data of a written phrase note, read back line for line.
pub open spec fn phrase_header_data(n: PhraseNote) -> PodView {
    let m = Map::<Seq<char>, PodView>::empty().insert("phrase"@, PodView::Text(n.phrase)).insert(
        "familiarity"@,
        PodView::Integer(n.familiarity as int),
    ).insert("interval"@, PodView::Integer(n.interval as int));
    let m = match n.next_review {
        Some(d) => m.insert("next_review"@, PodView::Text(full_text(d))),
        None => m,
    };
    PodView::Hash(m)
}

/// The header data of a written reading note, read back line for line.
pub open spec fn reading_header_data(n: ReadingNote) -> PodView {
    let m = if n.title.len() > 0 {
        Map::<Seq<char>, PodView>::empty().insert("title"@, PodView::Text(n.title))
    } else {
        Map::<Seq<char>, PodView>::empty()
    };
    let m = match n.source {
        Some(s) => m.insert("source"@, PodView::Text(s)),
        None => m,
    };
    PodView::Hash(m)
}

proof fn lemma_key_names()
    ensures
        "word"@ != "phonetic"@,
        "word"@ != "familiarity"@,
        "word"@ != "interval"@,
        "word"@ != "next_review"@,
        "word"@ != "synced_at"@,
        "phrase"@ != "familiarity"@,
        "phrase"@ != "interval"@,
        "phrase"@ != "next_review"@,
        "phrase"@ != "synced_at"@,
        "phonetic"@ != "familiarity"@,
        "phonetic"@ != "interval"@,
        "phonetic"@ != "next_review"@,
        "phonetic"@ != "synced_at"@,
        "familiarity"@ != "interval"@,
        "familiarity"@ != "next_review"@,
        "familiarity"@ != "synced_at"@,
        "interval"@ != "next_review"@,
        "interval"@ != "synced_at"@,
        "next_review"@ != "synced_at"@,
        "title"@ != "source"@,
        "title"@ != "imported_at"@,
        "title"@ != "synced_at"@,
        "source"@ != "imported_at"@,
        "source"@ != "synced_at"@,
        "imported_at"@ != "synced_at"@,
{
    reveal_strlit("word");
    reveal_strlit("phrase");
    reveal_strlit("phonetic");
    reveal_strlit("familiarity");
    reveal_strlit("interval");
    reveal_strlit("next_review");
    reveal_strlit("synced_at");
    reveal_strlit("title");
    reveal_strlit("source");
    reveal_strlit("imported_at");
    assert("word"@.len() == 4);
    assert("phrase"@.len() == 6);
    assert("phonetic"@.len() == 8);
    assert("familiarity"@.len() == 11);
    assert("interval"@.len() == 8);
    assert("next_review"@.len() == 11);
    assert("synced_at"@.len() == 9);
    assert("title"@.len() == 5);
    assert("source"@.len() == 6);
    assert("imported_at"@.len() == 11);
    assert("familiarity"@[0] != "next_review"@[0]);
    assert("phonetic"@[0] != "interval"@[0]);
}

proof fn lemma_full_text_nonempty(d: DateTime)
    ensures
        full_text(d).len() > 0,
{
}

/// A vocabulary note whose header the outside parsers read back as written
/// is read back whole.
pub proof fn law_word_read_back(n: WordNote, text: Seq<char>)
    requires
        word_clean(n),
        gray_matter_parsed(text).data == Some(word_header_data(n)),
        gray_matter_parsed(text).content == word_body(n).drop_last(),
        date_reads_back(n.next_review),
    ensures
        word_parse(text) == Ok::<WordNote, NoteError>(n),
{
    lemma_key_names();
    law_word_body_roundtrip(n);
    if let Some(d) = n.next_review {
        lemma_full_text_nonempty(d);
    }
}

/// A phrase note whose header the outside parsers read back as written is
/// read back whole.
pub proof fn law_phrase_read_back(n: PhraseNote, text: Seq<char>)
    requires
        phrase_clean(n),
        gray_matter_parsed(text).data == Some(phrase_header_data(n)),
        gray_matter_parsed(text).content == phrase_body(n).drop_last(),
        date_reads_back(n.next_review),
    ensures
        phrase_parse(text) == Ok::<PhraseNote, NoteError>(n),
{
    lemma_key_names();
    law_phrase_body_roundtrip(n);
    if let Some(d) = n.next_review {
        lemma_full_text_nonempty(d);
    }
}

/// A reading note whose header gray_matter reads back as written is read
/// back whole.
pub proof fn law_reading_read_back(n: ReadingNote, text: Seq<char>)
    requires
        reading_clean(n),
        gray_matter_parsed(text).data == Some(reading_header_data(n)),
        gray_matter_parsed(text).content == reading_body(n).drop_last(),
    ensures
        reading_parse(text) == Ok::<ReadingNote, NoteError>(n),
{
    lemma_key_names();
    law_reading_body_roundtrip(n);
    if n.title.len() == 0 {
        assert(n.title =~= Seq::<char>::empty());
    }
}

} // verus!
