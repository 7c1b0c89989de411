//! Pieces shared by the three kinds of notes: rendering sections and
//! header lines, and reading header values back.

use vstd::prelude::*;
use crate::text::{push_char, trim_end_ws, trim_start_nl};
use crate::section::{section_end, views};
use crate::layout::{sec_text, secs_text};
use crate::datetime::{chrono_parsed, full_format, iso_format, parse_datetime, DateTime};
use crate::front_matter::{
    entry_at_index, entry_at_key, front_value_at_index, front_value_at_key, gray_matter_parsed,
    shape_of, FrontEntry, FrontShape, FrontValue, ParsedView,
};

verus! {

/// Why a note could not be read.
#[derive(Clone, PartialEq, Eq, Debug)]
pub enum MarkdownError {
    /// The text has no `---` header block.
    MissingFrontMatter,
    /// The header lacks a required field or holds a value of the wrong kind.
    InvalidFrontMatter,
    /// A `next_review` date that neither date format reads.
    InvalidDate(String),
}

/// The view of a `MarkdownError`.
pub ghost enum NoteError {
    MissingFrontMatter,
    InvalidFrontMatter,
    InvalidDate(Seq<char>),
}

impl View for MarkdownError {
    type V = NoteError;

    open spec fn view(&self) -> NoteError {
        match self {
            MarkdownError::MissingFrontMatter => NoteError::MissingFrontMatter,
            MarkdownError::InvalidFrontMatter => NoteError::InvalidFrontMatter,
            MarkdownError::InvalidDate(s) => NoteError::InvalidDate(s@),
        }
    }
}

/// The view of an optional string.
pub open spec fn opt_view(o: Option<String>) -> Option<Seq<char>> {
    match o {
        Some(s) => Some(s@),
        None => None,
    }
}

/// The section of an optional text: none, or one whose content is the text
/// and a newline.
pub open spec fn text_secs(heading: Seq<char>, text: Option<Seq<char>>) -> Seq<
    (Seq<char>, Seq<char>),
> {
    match text {
        Some(t) => seq![(heading, t.push('\n'))],
        None => Seq::empty(),
    }
}

/// The lines `"- " + item + "\n"` of a list.
pub open spec fn list_lines(items: Seq<Seq<char>>) -> Seq<char>
    decreases items.len(),
{
    if items.len() == 0 {
        Seq::empty()
    } else {
        list_lines(items.drop_last()) + seq!['-', ' '] + items.last() + seq!['\n']
    }
}

/// The section of a list: none for an empty list.
pub open spec fn list_secs(heading: Seq<char>, items: Seq<Seq<char>>) -> Seq<
    (Seq<char>, Seq<char>),
> {
    if items.len() == 0 {
        Seq::empty()
    } else {
        seq![(heading, list_lines(items))]
    }
}

/// The title line `"# " + title + "\n"`.
pub open spec fn title_line(title: Seq<char>) -> Seq<char> {
    seq!['#', ' '] + title + seq!['\n']
}

/// A header line: `key` (with its `": "`), the value, a newline.
pub open spec fn field_line(key: Seq<char>, value: Seq<char>) -> Seq<char> {
    key + value + seq!['\n']
}

/// A header line for an optional value; nothing where there is none.
pub open spec fn opt_field_line(key: Seq<char>, value: Option<Seq<char>>) -> Seq<char> {
    match value {
        Some(v) => field_line(key, v),
        None => Seq::empty(),
    }
}

pub proof fn lemma_secs_single(h: Seq<char>, c: Seq<char>)
    ensures
        secs_text(seq![(h, c)]) == sec_text(h, c),
{
    let s = seq![(h, c)];
    assert(s.drop_last() =~= Seq::<(Seq<char>, Seq<char>)>::empty());
    assert(secs_text(s.drop_last()) == Seq::<char>::empty());
    assert(secs_text(s) =~= sec_text(h, c));
}

/// Appends `"\n## " + heading + "\n"`.
fn push_section_head(md: &mut String, heading: &str)
    ensures
        final(md)@ == old(md)@ + section_end() + heading@ + seq!['\n'],
{
    md.append("\n## ");
    proof {
        reveal_strlit("\n## ");
    }
    assert("\n## "@ =~= section_end());
    md.append(heading);
    push_char(md, '\n');
    assert(final(md)@ =~= old(md)@ + section_end() + heading@ + seq!['\n']);
}

/// Appends the section of an optional text.
pub fn push_text_section(md: &mut String, heading: &str, text: &Option<String>)
    ensures
        final(md)@ == old(md)@ + secs_text(text_secs(heading@, opt_view(*text))),
{
    match text {
        Some(t) => {
            push_section_head(md, heading);
            md.append(t.as_str());
            push_char(md, '\n');
            proof {
                lemma_secs_single(heading@, t@.push('\n'));
            }
            assert(final(md)@ =~= old(md)@ + sec_text(heading@, t@.push('\n')));
        },
        None => {
            assert(secs_text(Seq::<(Seq<char>, Seq<char>)>::empty()) == Seq::<char>::empty());
            assert(final(md)@ =~= old(md)@ + Seq::<char>::empty());
        },
    }
}

/// Appends the lines of a list.
pub fn push_list_lines(md: &mut String, items: &Vec<String>)
    ensures
        final(md)@ == old(md)@ + list_lines(views(items@)),
{
    let mut i: usize = 0;
    while i < items.len()
        invariant
            i <= items.len(),
            md@ == old(md)@ + list_lines(views(items@.take(i as int))),
        decreases items.len() - i,
    {
        push_char(md, '-');
        push_char(md, ' ');
        md.append(items[i].as_str());
        push_char(md, '\n');
        let ghost next = views(items@.take(i + 1));
        assert(next.drop_last() =~= views(items@.take(i as int)));
        assert(next.last() == items@[i as int]@);
        i += 1;
        assert(md@ =~= old(md)@ + list_lines(views(items@.take(i as int))));
    }
    assert(items@.take(items.len() as int) =~= items@);
}

/// Appends the section of a list (nothing for an empty list).
pub fn push_list_section(md: &mut String, heading: &str, items: &Vec<String>)
    ensures
        final(md)@ == old(md)@ + secs_text(list_secs(heading@, views(items@))),
{
    if items.len() > 0 {
        push_section_head(md, heading);
        push_list_lines(md, items);
        proof {
            lemma_secs_single(heading@, list_lines(views(items@)));
        }
        assert(final(md)@ =~= old(md)@ + sec_text(heading@, list_lines(views(items@))));
    } else {
        assert(views(items@).len() == 0);
        assert(secs_text(Seq::<(Seq<char>, Seq<char>)>::empty()) == Seq::<char>::empty());
        assert(final(md)@ =~= old(md)@ + Seq::<char>::empty());
    }
}

/// Whether a header can fill a note of `n` fields, and why not: no header,
/// or one that is neither a mapping nor a list of exactly `n` values.
pub open spec fn header_problem(p: ParsedView, n: nat) -> Option<NoteError> {
    match shape_of(p.data) {
        FrontShape::Missing => Some(NoteError::MissingFrontMatter),
        FrontShape::Table => None,
        FrontShape::List(k) => if k as nat == n {
            None
        } else {
            Some(NoteError::InvalidFrontMatter)
        },
        FrontShape::Scalar => Some(NoteError::InvalidFrontMatter),
    }
}

/// The header value for a field: under its key in a mapping, at its place
/// in a list.
pub open spec fn header_value(p: ParsedView, key: Seq<char>, index: int) -> FrontEntry {
    if shape_of(p.data) == FrontShape::Table {
        entry_at_key(p.data, key)
    } else {
        entry_at_index(p.data, index)
    }
}

/// A required text field: `None` where the value is no text.
pub open spec fn required_text(e: FrontEntry) -> Option<Seq<char>> {
    match e {
        FrontEntry::Text(s) => Some(s),
        _ => None,
    }
}

/// An optional text field: `None` where the value is neither null nor text.
/// A float that is not finite counts as null, as it does once the header is
/// turned into JSON for serde.
pub open spec fn optional_text(e: FrontEntry) -> Option<Option<Seq<char>>> {
    match e {
        FrontEntry::Null => Some(None),
        FrontEntry::Float(finite) => if finite {
            None
        } else {
            Some(None)
        },
        FrontEntry::Text(s) => Some(Some(s)),
        _ => None,
    }
}

/// A 32-bit integer field: `None` where the value is no integer or out of
/// range.
pub open spec fn small_int(e: FrontEntry) -> Option<i32> {
    match e {
        FrontEntry::Integer(i) => if i32::MIN <= i <= i32::MAX {
            Some(i as i32)
        } else {
            None
        },
        _ => None,
    }
}

/// The date-time that a header date reads as, in the first format that
/// reads it.
pub open spec fn date_of(s: Seq<char>) -> Option<DateTime> {
    match chrono_parsed(s, full_format()) {
        Some(d) => Some(d),
        None => chrono_parsed(s, iso_format()),
    }
}

/// The `next_review` date of a header: none for a missing or empty value,
/// an error for a value no format reads.
pub open spec fn review_date(t: Option<Seq<char>>) -> Result<Option<DateTime>, NoteError> {
    match t {
        Some(s) => if s.len() > 0 {
            match date_of(s) {
                Some(d) => Ok(Some(d)),
                None => Err(NoteError::InvalidDate(s)),
            }
        } else {
            Ok(None)
        },
        None => Ok(None),
    }
}

/// Reads a header date in either format (`%Y-%m-%d %H:%M:%S`, then
/// `%Y-%m-%dT%H:%M:%S`).
pub fn parse_date(s: &str) -> (r: Option<DateTime>)
    ensures
        r == date_of(s@),
        r matches Some(d) ==> d.wf(),
{
    proof {
        reveal_strlit("%Y-%m-%d %H:%M:%S");
        reveal_strlit("%Y-%m-%dT%H:%M:%S");
    }
    assert("%Y-%m-%d %H:%M:%S"@ =~= full_format());
    assert("%Y-%m-%dT%H:%M:%S"@ =~= iso_format());
    match parse_datetime(s, "%Y-%m-%d %H:%M:%S") {
        Some(d) => Some(d),
        None => parse_datetime(s, "%Y-%m-%dT%H:%M:%S"),
    }
}

/// The header value for a field of `text`, whose header has shape `shape`.
pub(crate) fn header_value_of(text: &str, shape: FrontShape, key: &str, index: usize) -> (r: FrontValue)
    requires
        shape == shape_of(gray_matter_parsed(text@).data),
    ensures
        r@ == header_value(gray_matter_parsed(text@), key@, index as int),
{
    match shape {
        FrontShape::Table => front_value_at_key(text, key),
        _ => front_value_at_index(text, index),
    }
}

/// A required text field.
pub fn take_required(v: FrontValue) -> (r: Option<String>)
    ensures
        opt_view(r) == required_text(v@),
{
    match v {
        FrontValue::Text(s) => Some(s),
        _ => None,
    }
}

/// An optional text field (outer `None`: a value of the wrong kind).
pub fn take_optional(v: FrontValue) -> (r: Option<Option<String>>)
    ensures
        match r {
            Some(o) => optional_text(v@) == Some(opt_view(o)),
            None => optional_text(v@) is None,
        },
{
    match v {
        FrontValue::Null => Some(None),
        FrontValue::Float(finite) => if finite {
            None
        } else {
            Some(None)
        },
        FrontValue::Text(s) => Some(Some(s)),
        _ => None,
    }
}

/// A 32-bit integer field.
pub fn take_i32(v: FrontValue) -> (r: Option<i32>)
    ensures
        r == small_int(v@),
{
    match v {
        FrontValue::Integer(i) => if i >= -2147483648 && i <= 2147483647 {
            Some(i as i32)
        } else {
            None
        },
        _ => None,
    }
}

/// The `next_review` date of a header.
pub fn take_review_date(t: Option<String>) -> (r: Result<Option<DateTime>, MarkdownError>)
    ensures
        match r {
            Ok(d) => review_date(opt_view(t)) == Ok::<Option<DateTime>, NoteError>(d),
            Err(e) => review_date(opt_view(t)) == Err::<Option<DateTime>, NoteError>(e@),
        },
        r matches Ok(Some(d)) ==> d.wf(),
{
    match t {
        Some(s) => if !s.as_str().is_empty() {
            match parse_date(s.as_str()) {
                Some(d) => Ok(Some(d)),
                None => Err(MarkdownError::InvalidDate(s)),
            }
        } else {
            Ok(None)
        },
        None => Ok(None),
    }
}

} // verus!
