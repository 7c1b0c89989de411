//! What the command line asks for, and the checks and notes its commands
//! make before they touch files or the database.

use vstd::prelude::*;
use crate::text::{push_char, text_eq, trim_ws};
use crate::section::{trim_text, views};
use crate::datetime::DateTime;
use crate::note::opt_view;
use crate::markdown::{MarkdownPhrase, MarkdownWord, PhraseNote, WordNote};
use crate::sync::copy_opt;

verus! {

/// What `add` adds.
#[derive(Clone, Debug)]
pub enum AddTarget {
    Word { word: String },
    Phrase { phrase: String },
}

/// What `explain` explains.
#[derive(Clone, Debug)]
pub enum ExplainTarget {
    Word { word: String },
    Phrase { phrase: String },
}

/// What `note` does.
#[derive(Clone, Debug)]
pub enum NoteAction {
    Add { target_type: String, target_id: i64, content: Vec<String> },
}

/// The words of a command line joined by single spaces.
pub open spec fn spaced(parts: Seq<Seq<char>>) -> Seq<char>
    decreases parts.len(),
{
    if parts.len() == 0 {
        Seq::empty()
    } else if parts.len() == 1 {
        parts[0]
    } else {
        spaced(parts.drop_last()) + seq![' '] + parts.last()
    }
}

/// Joins the words of a command line with single spaces (`join(" ")`).
pub fn join_words(parts: &Vec<String>) -> (r: String)
    ensures
        r@ == spaced(views(parts@)),
{
    let mut r = String::new();
    let mut i: usize = 0;
    while i < parts.len()
        invariant
            i <= parts.len(),
            r@ == spaced(views(parts@.take(i as int))),
        decreases parts.len() - i,
    {
        let ghost before = views(parts@.take(i as int));
        let ghost after = views(parts@.take(i + 1));
        assert(after.drop_last() =~= before);
        if i > 0 {
            push_char(&mut r, ' ');
        }
        r.append(parts[i].as_str());
        i = i + 1;
        assert(r@ =~= spaced(after));
    }
    assert(parts@.take(parts.len() as int) =~= parts@);
    r
}

/// What a note can be attached to.
pub open spec fn note_target_ok(t: Seq<char>) -> bool {
    t == "word"@ || t == "phrase"@ || t == "reading"@
}

/// Why `note add` is refused.
#[derive(Clone, Debug)]
pub enum NoteCommandError {
    /// The target type is none of `word`, `phrase`, `reading`.
    InvalidTargetType(String),
    /// The note is empty or only white space.
    EmptyContent,
}

impl NoteCommandError {
    /// The message shown for the error.
    pub fn message(&self) -> (r: String)
        ensures
            r@ == (match self {
                NoteCommandError::InvalidTargetType(t) => "Invalid target_type '"@ + t@
                    + "'. Must be one of: word, phrase, reading"@,
                NoteCommandError::EmptyContent => "Note content cannot be empty"@,
            }),
    {
        match self {
            NoteCommandError::InvalidTargetType(t) => {
                let mut r = String::from_str("Invalid target_type '");
                r.append(t.as_str());
                r.append("'. Must be one of: word, phrase, reading");
                r
            },
            NoteCommandError::EmptyContent => String::from_str("Note content cannot be empty"),
        }
    }
}

/// Checks `note add`: the target type first, then the note, which is the
/// words joined by spaces and must hold more than white space. Gives the
/// note.
pub fn prepare_note(target_type: &str, content: &Vec<String>) -> (r: Result<
    String,
    NoteCommandError,
>)
    ensures
        !note_target_ok(target_type@) ==> (r matches Err(NoteCommandError::InvalidTargetType(t))
            && t@ == target_type@),
        note_target_ok(target_type@) && trim_ws(spaced(views(content@))).len() == 0 ==> r matches Err(
            NoteCommandError::EmptyContent,
        ),
        note_target_ok(target_type@) && trim_ws(spaced(views(content@))).len() > 0 ==> (r matches Ok(
            n,
        ) && n@ == spaced(views(content@))),
{
    if !(text_eq(target_type, "word") || text_eq(target_type, "phrase") || text_eq(
        target_type,
        "reading",
    )) {
        return Err(NoteCommandError::InvalidTargetType(String::from_str(target_type)));
    }
    let note = join_words(content);
    let trimmed = trim_text(note.as_str());
    if trimmed.as_str().is_empty() {
        return Err(NoteCommandError::EmptyContent);
    }
    Ok(note)
}

/// Which kind of note a directory holds.
#[derive(Clone, Copy, PartialEq, Eq, Structural, Debug)]
pub enum NoteKind {
    Word,
    Phrase,
}

/// The kind of notes in a directory named `name`: words in `01_vocab`,
/// phrases in `02_phrases`.
pub open spec fn kind_of_dir(name: Seq<char>) -> Option<NoteKind> {
    if name == "01_vocab"@ {
        Some(NoteKind::Word)
    } else if name == "02_phrases"@ {
        Some(NoteKind::Phrase)
    } else {
        None
    }
}

/// The kind of notes in the directory `name`.
pub fn note_kind_of_dir(name: &str) -> (r: Option<NoteKind>)
    ensures
        r == kind_of_dir(name@),
{
    if text_eq(name, "01_vocab") {
        Some(NoteKind::Word)
    } else if text_eq(name, "02_phrases") {
        Some(NoteKind::Phrase)
    } else {
        None
    }
}

/// The meaning to store when a note is imported over a stored entry: the
/// note's, else the stored one.
pub fn merged_meaning(note: &Option<String>, stored: &Option<String>) -> (r: Option<String>)
    ensures
        opt_view(r) == (match opt_view(*note) {
            Some(m) => Some(m),
            None => opt_view(*stored),
        }),
{
    match note {
        Some(m) => Some(m.clone()),
        None => copy_opt(stored),
    }
}

/// The note of an entry with these fields and nothing else.
pub open spec fn entry_word(
    word: Seq<char>,
    phonetic: Option<Seq<char>>,
    familiarity: i32,
    interval: i32,
    next_review: Option<DateTime>,
    meaning: Option<Seq<char>>,
    ai_explanation: Option<Seq<char>>,
) -> WordNote {
    WordNote {
        word,
        phonetic,
        familiarity,
        interval,
        next_review,
        meaning,
        examples: Seq::empty(),
        synonyms: Seq::empty(),
        ai_explanation,
        my_notes: Seq::empty(),
        reviews: Seq::empty(),
    }
}

/// The note of a phrase entry with these fields and nothing else.
pub open spec fn entry_phrase(
    phrase: Seq<char>,
    familiarity: i32,
    interval: i32,
    next_review: Option<DateTime>,
    meaning: Option<Seq<char>>,
    ai_explanation: Option<Seq<char>>,
) -> PhraseNote {
    PhraseNote {
        phrase,
        familiarity,
        interval,
        next_review,
        meaning,
        examples: Seq::empty(),
        ai_explanation,
        my_notes: Seq::empty(),
        reviews: Seq::empty(),
    }
}

/// Makes the note of a word entry: its fields, and no lists.
pub fn entry_word_note(
    word: &str,
    phonetic: &Option<String>,
    familiarity: i32,
    interval: i32,
    next_review: Option<DateTime>,
    meaning: &Option<String>,
    ai_explanation: &Option<String>,
) -> (r: MarkdownWord)
    ensures
        r@ == entry_word(
            word@,
            opt_view(*phonetic),
            familiarity,
            interval,
            next_review,
            opt_view(*meaning),
            opt_view(*ai_explanation),
        ),
{
    let examples: Vec<String> = Vec::new();
    let synonyms: Vec<String> = Vec::new();
    let my_notes: Vec<String> = Vec::new();
    let reviews: Vec<String> = Vec::new();
    assert(views(examples@) =~= Seq::<Seq<char>>::empty());
    MarkdownWord {
        word: String::from_str(word),
        phonetic: copy_opt(phonetic),
        familiarity,
        interval,
        next_review,
        meaning: copy_opt(meaning),
        examples,
        synonyms,
        ai_explanation: copy_opt(ai_explanation),
        my_notes,
        reviews,
    }
}

/// Makes the note of a phrase entry: its fields, and no lists.
pub fn entry_phrase_note(
    phrase: &str,
    familiarity: i32,
    interval: i32,
    next_review: Option<DateTime>,
    meaning: &Option<String>,
    ai_explanation: &Option<String>,
) -> (r: MarkdownPhrase)
    ensures
        r@ == entry_phrase(
            phrase@,
            familiarity,
            interval,
            next_review,
            opt_view(*meaning),
            opt_view(*ai_explanation),
        ),
{
    let examples: Vec<String> = Vec::new();
    let my_notes: Vec<String> = Vec::new();
    let reviews: Vec<String> = Vec::new();
    assert(views(examples@) =~= Seq::<Seq<char>>::empty());
    MarkdownPhrase {
        phrase: String::from_str(phrase),
        familiarity,
        interval,
        next_review,
        meaning: copy_opt(meaning),
        examples,
        ai_explanation: copy_opt(ai_explanation),
        my_notes,
        reviews,
    }
}

} // verus!
