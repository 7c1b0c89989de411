//! The queries the database layer builds from what a listing asks for.

use vstd::prelude::*;
use crate::datetime::DateTime;
use crate::note::opt_view;
use crate::sync::copy_opt;

verus! {

/// The tables that can be listed with a search.
#[derive(Clone, Copy, PartialEq, Eq, Structural, Debug)]
pub enum ListTable {
    Words,
    Phrases,
}

/// The SQL of a listing: every row, narrowed by a text search on the word
/// or phrase and by a lowest familiarity where those are asked for, newest
/// first, one page.
pub open spec fn list_sql(t: ListTable, search: bool, familiarity: bool) -> Seq<char> {
    (match t {
        ListTable::Words => "SELECT * FROM words WHERE 1=1"@,
        ListTable::Phrases => "SELECT * FROM phrases WHERE 1=1"@,
    }) + (if search {
        match t {
            ListTable::Words => " AND word LIKE ?"@,
            ListTable::Phrases => " AND phrase LIKE ?"@,
        }
    } else {
        Seq::empty()
    }) + (if familiarity {
        " AND familiarity >= ?"@
    } else {
        Seq::empty()
    }) + " ORDER BY updated_at DESC LIMIT ? OFFSET ?"@
}

/// Builds the SQL of a listing.
pub fn list_query(t: ListTable, search: bool, familiarity: bool) -> (r: String)
    ensures
        r@ == list_sql(t, search, familiarity),
{
    let mut q = match t {
        ListTable::Words => String::from_str("SELECT * FROM words WHERE 1=1"),
        ListTable::Phrases => String::from_str("SELECT * FROM phrases WHERE 1=1"),
    };
    if search {
        match t {
            ListTable::Words => q.append(" AND word LIKE ?"),
            ListTable::Phrases => q.append(" AND phrase LIKE ?"),
        }
    }
    if familiarity {
        q.append(" AND familiarity >= ?");
    }
    q.append(" ORDER BY updated_at DESC LIMIT ? OFFSET ?");
    proof {
        assert(Seq::<char>::empty() + Seq::<char>::empty() =~= Seq::<char>::empty());
    }
    assert(q@ =~= list_sql(t, search, familiarity));
    q
}

/// The `LIKE` pattern of a search: the text with `%` on either side.
pub fn like_pattern(search: &str) -> (r: String)
    ensures
        r@ == "%"@ + search@ + "%"@,
{
    let mut r = String::from_str("%");
    r.append(search);
    r.append("%");
    r
}

/// The fields of a stored word that an update can change, the ease factor
/// aside.
#[derive(Clone, Debug)]
pub struct WordRow {
    pub word: String,
    pub phonetic: Option<String>,
    pub meaning: Option<String>,
    pub familiarity: i32,
    pub next_review: Option<DateTime>,
    pub interval: i32,
}

/// An update of a stored word: the fields given replace the stored ones,
/// the others stay.
#[derive(Clone, Debug)]
pub struct WordChanges {
    pub word: Option<String>,
    pub phonetic: Option<String>,
    pub meaning: Option<String>,
    pub familiarity: Option<i32>,
    pub next_review: Option<DateTime>,
    pub interval: Option<i32>,
}

/// The view of a word's fields.
pub ghost struct WordRowView {
    pub word: Seq<char>,
    pub phonetic: Option<Seq<char>>,
    pub meaning: Option<Seq<char>>,
    pub familiarity: i32,
    pub next_review: Option<DateTime>,
    pub interval: i32,
}

/// The view of an update of a word.
pub ghost struct WordChangesView {
    pub word: Option<Seq<char>>,
    pub phonetic: Option<Seq<char>>,
    pub meaning: Option<Seq<char>>,
    pub familiarity: Option<i32>,
    pub next_review: Option<DateTime>,
    pub interval: Option<i32>,
}

impl View for WordRow {
    type V = WordRowView;

    open spec fn view(&self) -> WordRowView {
        WordRowView {
            word: self.word@,
            phonetic: opt_view(self.phonetic),
            meaning: opt_view(self.meaning),
            familiarity: self.familiarity,
            next_review: self.next_review,
            interval: self.interval,
        }
    }
}

impl View for WordChanges {
    type V = WordChangesView;

    open spec fn view(&self) -> WordChangesView {
        WordChangesView {
            word: opt_view(self.word),
            phonetic: opt_view(self.phonetic),
            meaning: opt_view(self.meaning),
            familiarity: self.familiarity,
            next_review: self.next_review,
            interval: self.interval,
        }
    }
}

/// The given value, else the stored one.
pub open spec fn or_else<T>(given: Option<T>, stored: T) -> T {
    match given {
        Some(v) => v,
        None => stored,
    }
}

/// The given optional value, else the stored one.
pub open spec fn or_opt<T>(given: Option<T>, stored: Option<T>) -> Option<T> {
    match given {
        Some(v) => Some(v),
        None => stored,
    }
}

/// A word's fields after an update.
pub open spec fn word_changed(cur: WordRowView, ch: WordChangesView) -> WordRowView {
    WordRowView {
        word: or_else(ch.word, cur.word),
        phonetic: or_opt(ch.phonetic, cur.phonetic),
        meaning: or_opt(ch.meaning, cur.meaning),
        familiarity: or_else(ch.familiarity, cur.familiarity),
        next_review: or_opt(ch.next_review, cur.next_review),
        interval: or_else(ch.interval, cur.interval),
    }
}

/// A text given by an update, else the stored one.
fn text_or(given: &Option<String>, stored: &String) -> (r: String)
    ensures
        r@ == or_else(opt_view(*given), stored@),
{
    match given {
        Some(g) => g.clone(),
        None => stored.clone(),
    }
}

/// An optional text given by an update, else the stored one.
fn opt_text_or(given: &Option<String>, stored: &Option<String>) -> (r: Option<String>)
    ensures
        opt_view(r) == or_opt(opt_view(*given), opt_view(*stored)),
{
    match given {
        Some(g) => Some(g.clone()),
        None => copy_opt(stored),
    }
}

/// Applies an update to a word's fields.
pub fn apply_word_changes(current: &WordRow, changes: &WordChanges) -> (r: WordRow)
    ensures
        r@ == word_changed(current@, changes@),
{
    WordRow {
        word: text_or(&changes.word, &current.word),
        phonetic: opt_text_or(&changes.phonetic, &current.phonetic),
        meaning: opt_text_or(&changes.meaning, &current.meaning),
        familiarity: match changes.familiarity {
            Some(f) => f,
            None => current.familiarity,
        },
        next_review: match changes.next_review {
            Some(d) => Some(d),
            None => current.next_review,
        },
        interval: match changes.interval {
            Some(i) => i,
            None => current.interval,
        },
    }
}

/// The fields of a stored phrase that an update can change, the ease
/// factor aside.
#[derive(Clone, Debug)]
pub struct PhraseRow {
    pub phrase: String,
    pub meaning: Option<String>,
    pub familiarity: i32,
    pub next_review: Option<DateTime>,
    pub interval: i32,
}

/// An update of a stored phrase: the fields given replace the stored ones,
/// the others stay.
#[derive(Clone, Debug)]
pub struct PhraseChanges {
    pub phrase: Option<String>,
    pub meaning: Option<String>,
    pub familiarity: Option<i32>,
    pub next_review: Option<DateTime>,
    pub interval: Option<i32>,
}

/// The view of a phrase's fields.
pub ghost struct PhraseRowView {
    pub phrase: Seq<char>,
    pub meaning: Option<Seq<char>>,
    pub familiarity: i32,
    pub next_review: Option<DateTime>,
    pub interval: i32,
}

/// The view of an update of a phrase.
pub ghost struct PhraseChangesView {
    pub phrase: Option<Seq<char>>,
    pub meaning: Option<Seq<char>>,
    pub familiarity: Option<i32>,
    pub next_review: Option<DateTime>,
    pub interval: Option<i32>,
}

impl View for PhraseRow {
    type V = PhraseRowView;

    open spec fn view(&self) -> PhraseRowView {
        PhraseRowView {
            phrase: self.phrase@,
            meaning: opt_view(self.meaning),
            familiarity: self.familiarity,
            next_review: self.next_review,
            interval: self.interval,
        }
    }
}

impl View for PhraseChanges {
    type V = PhraseChangesView;

    open spec fn view(&self) -> PhraseChangesView {
        PhraseChangesView {
            phrase: opt_view(self.phrase),
            meaning: opt_view(self.meaning),
            familiarity: self.familiarity,
            next_review: self.next_review,
            interval: self.interval,
        }
    }
}

/// A phrase's fields after an update.
pub open spec fn phrase_changed(cur: PhraseRowView, ch: PhraseChangesView) -> PhraseRowView {
    PhraseRowView {
        phrase: or_else(ch.phrase, cur.phrase),
        meaning: or_opt(ch.meaning, cur.meaning),
        familiarity: or_else(ch.familiarity, cur.familiarity),
        next_review: or_opt(ch.next_review, cur.next_review),
        interval: or_else(ch.interval, cur.interval),
    }
}

/// Applies an update to a phrase's fields.
pub fn apply_phrase_changes(current: &PhraseRow, changes: &PhraseChanges) -> (r: PhraseRow)
    ensures
        r@ == phrase_changed(current@, changes@),
{
    PhraseRow {
        phrase: text_or(&changes.phrase, &current.phrase),
        meaning: opt_text_or(&changes.meaning, &current.meaning),
        familiarity: match changes.familiarity {
            Some(f) => f,
            None => current.familiarity,
        },
        next_review: match changes.next_review {
            Some(d) => Some(d),
            None => current.next_review,
        },
        interval: match changes.interval {
            Some(i) => i,
            None => current.interval,
        },
    }
}

/// An update that gives nothing leaves a word as it is; the same update
/// made twice changes no more than once; and a field the update gives is
/// the update's.
pub proof fn law_word_changes(cur: WordRowView, ch: WordChangesView)
    ensures
        word_changed(
            cur,
            WordChangesView {
                word: None,
                phonetic: None,
                meaning: None,
                familiarity: None,
                next_review: None,
                interval: None,
            },
        ) == cur,
        word_changed(word_changed(cur, ch), ch) == word_changed(cur, ch),
        ch.meaning is Some ==> word_changed(cur, ch).meaning == ch.meaning,
{
}

/// Each field that an update to a word gives is the update's, and each
/// field that it does not give is the stored one.
pub proof fn law_word_fields(cur: WordRowView, ch: WordChangesView)
    ensures
        ch.word is Some ==> word_changed(cur, ch).word == ch.word.unwrap(),
        ch.word is None ==> word_changed(cur, ch).word == cur.word,
        ch.phonetic is Some ==> word_changed(cur, ch).phonetic == ch.phonetic,
        ch.phonetic is None ==> word_changed(cur, ch).phonetic == cur.phonetic,
        ch.meaning is Some ==> word_changed(cur, ch).meaning == ch.meaning,
        ch.meaning is None ==> word_changed(cur, ch).meaning == cur.meaning,
        ch.familiarity is Some ==> word_changed(cur, ch).familiarity == ch.familiarity.unwrap(),
        ch.familiarity is None ==> word_changed(cur, ch).familiarity == cur.familiarity,
        ch.next_review is Some ==> word_changed(cur, ch).next_review == ch.next_review,
        ch.next_review is None ==> word_changed(cur, ch).next_review == cur.next_review,
        ch.interval is Some ==> word_changed(cur, ch).interval == ch.interval.unwrap(),
        ch.interval is None ==> word_changed(cur, ch).interval == cur.interval,
{
}

/// An update that gives nothing leaves a phrase as it is; the same update
/// made twice changes no more than once; and a field the update gives is
/// the update's.
pub proof fn law_phrase_changes(cur: PhraseRowView, ch: PhraseChangesView)
    ensures
        phrase_changed(
            cur,
            PhraseChangesView {
                phrase: None,
                meaning: None,
                familiarity: None,
                next_review: None,
                interval: None,
            },
        ) == cur,
        phrase_changed(phrase_changed(cur, ch), ch) == phrase_changed(cur, ch),
        ch.meaning is Some ==> phrase_changed(cur, ch).meaning == ch.meaning,
{
}

/// Each field that an update to a phrase gives is the update's, and each
/// field that it does not give is the stored one.
pub proof fn law_phrase_fields(cur: PhraseRowView, ch: PhraseChangesView)
    ensures
        ch.phrase is Some ==> phrase_changed(cur, ch).phrase == ch.phrase.unwrap(),
        ch.phrase is None ==> phrase_changed(cur, ch).phrase == cur.phrase,
        ch.meaning is Some ==> phrase_changed(cur, ch).meaning == ch.meaning,
        ch.meaning is None ==> phrase_changed(cur, ch).meaning == cur.meaning,
        ch.familiarity is Some ==> phrase_changed(cur, ch).familiarity == ch.familiarity.unwrap(),
        ch.familiarity is None ==> phrase_changed(cur, ch).familiarity == cur.familiarity,
        ch.next_review is Some ==> phrase_changed(cur, ch).next_review == ch.next_review,
        ch.next_review is None ==> phrase_changed(cur, ch).next_review == cur.next_review,
        ch.interval is Some ==> phrase_changed(cur, ch).interval == ch.interval.unwrap(),
        ch.interval is None ==> phrase_changed(cur, ch).interval == cur.interval,
{
}

} // verus!
