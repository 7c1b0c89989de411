//! The YAML header of a note (`---` ... `---`), which gray_matter splits
//! from the body and parses.

use vstd::prelude::*;
use gray_matter::engine::YAML;
use gray_matter::{Matter, Pod};
use crate::text::trim_end_ws;
use crate::section::split_nl;
use crate::layout::{ends_nl, has_no};
use crate::text::trim_start_nl;

verus! {

/// A value of a parsed header, as gray_matter's `Pod` holds it (a float is
/// kept only as whether it is finite).
pub ghost enum PodView {
    Null,
    Text(Seq<char>),
    Integer(int),
    Float(bool),
    Boolean(bool),
    Array(Seq<PodView>),
    Hash(Map<Seq<char>, PodView>),
}

/// What gray_matter's `Matter::parse` gives: the parsed header, if there is
/// one, and the body that follows it.
pub ghost struct ParsedView {
    pub data: Option<PodView>,
    pub content: Seq<char>,
}

/// What `Matter::<YAML>::new().parse(text)` gives for `text`.
pub uninterp spec fn gray_matter_parsed(text: Seq<char>) -> ParsedView;

/// The shape of a parsed header.
#[derive(Clone, Copy, PartialEq, Eq, Structural, Debug)]
pub enum FrontShape {
    /// No header was found.
    Missing,
    /// A mapping from keys to values.
    Table,
    /// A list with this many values.
    List(usize),
    /// A single value.
    Scalar,
}

/// One header value, as far as the notes read it.
#[derive(Clone, PartialEq, Eq, Debug)]
pub enum FrontValue {
    Null,
    Text(String),
    Integer(i64),
    /// A floating-point number, by whether it is finite.
    Float(bool),
    Other,
}

/// The view of a header value.
pub ghost enum FrontEntry {
    Null,
    Text(Seq<char>),
    Integer(int),
    Float(bool),
    Other,
}

impl View for FrontValue {
    type V = FrontEntry;

    open spec fn view(&self) -> FrontEntry {
        match self {
            FrontValue::Null => FrontEntry::Null,
            FrontValue::Text(s) => FrontEntry::Text(s@),
            FrontValue::Integer(i) => FrontEntry::Integer(*i as int),
            FrontValue::Float(finite) => FrontEntry::Float(*finite),
            FrontValue::Other => FrontEntry::Other,
        }
    }
}

/// The shape of a parsed header.
pub open spec fn shape_of(data: Option<PodView>) -> FrontShape {
    match data {
        None => FrontShape::Missing,
        Some(PodView::Hash(_)) => FrontShape::Table,
        Some(PodView::Array(items)) => FrontShape::List(items.len() as usize),
        Some(_) => FrontShape::Scalar,
    }
}

/// A header value as the notes read it.
pub open spec fn entry_of(v: PodView) -> FrontEntry {
    match v {
        PodView::Null => FrontEntry::Null,
        PodView::Text(s) => FrontEntry::Text(s),
        PodView::Integer(i) => FrontEntry::Integer(i),
        PodView::Float(finite) => FrontEntry::Float(finite),
        _ => FrontEntry::Other,
    }
}

/// The value under `key` of a header mapping (`Null` where the key is
/// missing or the header is no mapping).
pub open spec fn entry_at_key(data: Option<PodView>, key: Seq<char>) -> FrontEntry {
    match data {
        Some(PodView::Hash(m)) => if m.contains_key(key) {
            entry_of(m[key])
        } else {
            FrontEntry::Null
        },
        _ => FrontEntry::Null,
    }
}

/// The value at `index` of a header list (`Null` past its end or where the
/// header is no list).
pub open spec fn entry_at_index(data: Option<PodView>, index: int) -> FrontEntry {
    match data {
        Some(PodView::Array(items)) => if 0 <= index < items.len() {
            entry_of(items[index])
        } else {
            FrontEntry::Null
        },
        _ => FrontEntry::Null,
    }
}

/// `"---\n" + header + "---\n" + rest`: a text with a header block.
pub open spec fn delimited(header: Seq<char>, rest: Seq<char>) -> Seq<char> {
    seq!['-', '-', '-', '\n'] + header + seq!['-', '-', '-', '\n'] + rest
}

/// No line of `header` reads `---` (trailing white space aside).
pub open spec fn no_delimiter_line(header: Seq<char>) -> bool {
    forall|i: int|
        0 <= i < split_nl(header).len() ==> trim_end_ws(#[trigger] split_nl(header)[i])
            != seq!['-', '-', '-']
}

/// The shape of the header of `text` (gray_matter's `Matter::parse`, YAML
/// engine). The parse itself is named, not described.
#[verifier::external_body]
pub fn front_shape(text: &str) -> (r: FrontShape)
    ensures
        r == shape_of(gray_matter_parsed(text@).data),
{
    match Matter::<YAML>::new().parse(text).data {
        None => FrontShape::Missing,
        Some(Pod::Hash(_)) => FrontShape::Table,
        Some(Pod::Array(items)) => FrontShape::List(items.len()),
        Some(_) => FrontShape::Scalar,
    }
}

/// The header value under `key` of `text` (gray_matter's `Matter::parse`,
/// then `Pod::remove` on the parsed mapping); a float is given by whether it
/// is finite (`f64::is_finite`).
#[verifier::external_body]
pub fn front_value_at_key(text: &str, key: &str) -> (r: FrontValue)
    ensures
        r@ == entry_at_key(gray_matter_parsed(text@).data, key@),
{
    match Matter::<YAML>::new().parse(text).data {
        Some(mut d) => match d.remove(key.to_string()) {
            Pod::String(s) => FrontValue::Text(s),
            Pod::Integer(i) => FrontValue::Integer(i),
            Pod::Float(f) => FrontValue::Float(f.is_finite()),
            Pod::Null => FrontValue::Null,
            _ => FrontValue::Other,
        },
        None => FrontValue::Null,
    }
}

/// The header value at `index` of `text` (gray_matter's `Matter::parse`,
/// then indexing the parsed list); a float is given by whether it is finite
/// (`f64::is_finite`).
#[verifier::external_body]
pub fn front_value_at_index(text: &str, index: usize) -> (r: FrontValue)
    ensures
        r@ == entry_at_index(gray_matter_parsed(text@).data, index as int),
{
    match Matter::<YAML>::new().parse(text).data {
        Some(d) => match &d[index] {
            Pod::String(s) => FrontValue::Text(s.clone()),
            Pod::Integer(i) => FrontValue::Integer(*i),
            Pod::Float(f) => FrontValue::Float(f.is_finite()),
            Pod::Null => FrontValue::Null,
            _ => FrontValue::Other,
        },
        None => FrontValue::Null,
    }
}

/// The body of `text` after its header (gray_matter's `Matter::parse`,
/// field `content`). Besides the name, one fact from gray_matter's source:
/// for a text `"---\n" + header + "---\n" + rest`, where the header is
/// empty or ends a line and has no `---` line, and `rest` has no `\r` and
/// ends with a newline, the body is `rest` without its last newline and
/// without leading newlines (gray_matter rejoins the lines of `rest`).
#[verifier::external_body]
pub fn front_body(text: &str) -> (r: String)
    ensures
        r@ == gray_matter_parsed(text@).content,
        forall|header: Seq<char>, rest: Seq<char>|
            #![trigger delimited(header, rest)]
            text@ == delimited(header, rest) && (header.len() == 0 || header.last() == '\n')
                && no_delimiter_line(header) && has_no(rest, '\r') && ends_nl(rest) ==> r@
                == trim_start_nl(rest.drop_last()),
{
    Matter::<YAML>::new().parse(text).content
}

} // verus!
