//! Keeping the note files and the database in step: which side is newer,
//! what a stored entry's note says, and what a note file changes in the
//! database. Reading and writing files and the database is done around it.

use vstd::prelude::*;
use crate::text::{chars_of, decimal, push_char, push_decimal};
use crate::section::views;
use crate::datetime::{day_format, day_text, format_datetime, DateTime};
use crate::note::opt_view;
use crate::markdown::{MarkdownPhrase, MarkdownWord, PhraseNote, WordNote};
use crate::models::{PhraseSummary, ReviewInfo, WordSummary};

verus! {

/// `s` with every space made an underscore.
pub open spec fn underscored(s: Seq<char>) -> Seq<char> {
    s.map_values(|c: char| if c == ' ' { '_' } else { c })
}

/// The file name of a word's note: the word and `.md`.
pub fn word_file_name(word: &str) -> (r: String)
    ensures
        r@ == word@ + ".md"@,
{
    let mut r = String::from_str(word);
    r.append(".md");
    r
}

/// The file name of a phrase's note: the phrase with its spaces made
/// underscores, and `.md`.
pub fn phrase_file_name(phrase: &str) -> (r: String)
    ensures
        r@ == underscored(phrase@) + ".md"@,
{
    let v = chars_of(phrase);
    let mut r = String::new();
    let mut i: usize = 0;
    while i < v.len()
        invariant
            v@ == phrase@,
            i <= v.len(),
            r@ == underscored(v@.take(i as int)),
        decreases v.len() - i,
    {
        if v[i] == ' ' {
            push_char(&mut r, '_');
        } else {
            push_char(&mut r, v[i]);
        }
        i = i + 1;
        assert(r@ =~= underscored(v@.take(i as int)));
    }
    assert(v@.take(v.len() as int) =~= v@);
    r.append(".md");
    r
}

/// Whether a file name has the extension `md`, as `Path::extension` reads
/// it: the text after the last dot, where that dot is not the first
/// character.
pub open spec fn md_extension(name: Seq<char>) -> bool {
    name.len() >= 4 && name.subrange(name.len() - 3, name.len() as int) == ".md"@
}

/// Whether the file `name` is a note file (extension `md`).
pub fn is_note_file(name: &str) -> (r: bool)
    ensures
        r == md_extension(name@),
{
    proof {
        reveal_strlit(".md");
    }
    let v = chars_of(name);
    let n = v.len();
    if n < 4 {
        return false;
    }
    let r = v[n - 3] == '.' && v[n - 2] == 'm' && v[n - 1] == 'd';
    let ghost tail = v@.subrange(n - 3, n as int);
    assert(".md"@ =~= seq!['.', 'm', 'd']);
    if r {
        assert(tail =~= ".md"@);
    } else {
        assert(tail[0] != '.' || tail[1] != 'm' || tail[2] != 'd');
        assert(tail != ".md"@);
    }
    r
}

/// Whether a stored entry, changed at `db_updated`, must be written to its
/// note file, last changed at `file_modified` (none where there is no such
/// file): when there is no file, or the entry is newer. Times are in
/// nanoseconds since the epoch.
pub open spec fn export_needed(file_modified: Option<i128>, db_updated: i128) -> bool {
    match file_modified {
        None => true,
        Some(m) => db_updated > m,
    }
}

/// Whether an entry must be written to its note file.
pub fn needs_export(file_modified: Option<i128>, db_updated: i128) -> (r: bool)
    ensures
        r == export_needed(file_modified, db_updated),
{
    match file_modified {
        None => true,
        Some(m) => db_updated > m,
    }
}

/// The note line of a past review: `"YYYY-MM-DD: quality q"`.
pub open spec fn review_text(r: ReviewInfo) -> Seq<char> {
    day_text(r.reviewed_at) + ": quality "@ + decimal(r.quality as int)
}

/// Writes the note line of a past review.
pub fn review_line(r: &ReviewInfo) -> (s: String)
    requires
        r.reviewed_at.wf(),
    ensures
        s@ == review_text(*r),
{
    proof {
        reveal_strlit("%Y-%m-%d");
    }
    assert("%Y-%m-%d"@ =~= day_format());
    let mut s = format_datetime(&r.reviewed_at, "%Y-%m-%d");
    s.append(": quality ");
    push_decimal(&mut s, r.quality as i64);
    s
}

/// Every review's date is one chrono can hold.
pub open spec fn reviews_wf(reviews: Seq<ReviewInfo>) -> bool {
    forall|i: int| 0 <= i < reviews.len() ==> (#[trigger] reviews[i]).reviewed_at.wf()
}

/// The note lines of past reviews, in order.
pub open spec fn review_texts(reviews: Seq<ReviewInfo>) -> Seq<Seq<char>> {
    reviews.map_values(|r: ReviewInfo| review_text(r))
}

/// Writes the note lines of past reviews.
pub fn review_lines(reviews: &Vec<ReviewInfo>) -> (r: Vec<String>)
    requires
        reviews_wf(reviews@),
    ensures
        views(r@) == review_texts(reviews@),
{
    let mut r: Vec<String> = Vec::new();
    let mut i: usize = 0;
    while i < reviews.len()
        invariant
            i <= reviews.len(),
            reviews_wf(reviews@),
            views(r@) == review_texts(reviews@.take(i as int)),
        decreases reviews.len() - i,
    {
        let line = review_line(&reviews[i]);
        let ghost before = r@;
        r.push(line);
        assert(r@ =~= before.push(line));
        assert(reviews@.take(i + 1) =~= reviews@.take(i as int).push(reviews@[i as int]));
        assert(views(r@) =~= views(before).push(line@));
        assert(review_texts(reviews@.take(i + 1)) =~= review_texts(reviews@.take(i as int)).push(
            review_text(reviews@[i as int]),
        ));
        i = i + 1;
    }
    assert(reviews@.take(reviews.len() as int) =~= reviews@);
    r
}

/// A copy of an optional text.
pub fn copy_opt(o: &Option<String>) -> (r: Option<String>)
    ensures
        opt_view(r) == opt_view(*o),
{
    match o {
        Some(s) => Some(s.clone()),
        None => None,
    }
}

/// The note of a stored word with its examples, notes and past reviews; it
/// has no synonyms and no AI explanation.
pub open spec fn stored_word_note(
    w: WordSummary,
    examples: Seq<Seq<char>>,
    notes: Seq<Seq<char>>,
    reviews: Seq<ReviewInfo>,
) -> WordNote {
    WordNote {
        word: w.word@,
        phonetic: opt_view(w.phonetic),
        familiarity: w.familiarity,
        interval: w.interval,
        next_review: w.next_review,
        meaning: opt_view(w.meaning),
        examples,
        synonyms: Seq::empty(),
        ai_explanation: None,
        my_notes: notes,
        reviews: review_texts(reviews),
    }
}

/// The note of a stored phrase with its examples, notes and past reviews;
/// it has no AI explanation.
pub open spec fn stored_phrase_note(
    p: PhraseSummary,
    examples: Seq<Seq<char>>,
    notes: Seq<Seq<char>>,
    reviews: Seq<ReviewInfo>,
) -> PhraseNote {
    PhraseNote {
        phrase: p.phrase@,
        familiarity: p.familiarity,
        interval: p.interval,
        next_review: p.next_review,
        meaning: opt_view(p.meaning),
        examples,
        ai_explanation: None,
        my_notes: notes,
        reviews: review_texts(reviews),
    }
}

/// Makes the note of a stored word.
pub fn word_note(
    w: &WordSummary,
    examples: Vec<String>,
    notes: Vec<String>,
    reviews: &Vec<ReviewInfo>,
) -> (r: MarkdownWord)
    requires
        w.wf(),
        reviews_wf(reviews@),
    ensures
        r@ == stored_word_note(*w, views(examples@), views(notes@), reviews@),
        r.wf(),
{
    let lines = review_lines(reviews);
    let synonyms: Vec<String> = Vec::new();
    assert(views(synonyms@) =~= Seq::<Seq<char>>::empty());
    MarkdownWord {
        word: w.word.clone(),
        phonetic: copy_opt(&w.phonetic),
        familiarity: w.familiarity,
        interval: w.interval,
        next_review: w.next_review,
        meaning: copy_opt(&w.meaning),
        examples,
        synonyms,
        ai_explanation: None,
        my_notes: notes,
        reviews: lines,
    }
}

/// Makes the note of a stored phrase.
pub fn phrase_note(
    p: &PhraseSummary,
    examples: Vec<String>,
    notes: Vec<String>,
    reviews: &Vec<ReviewInfo>,
) -> (r: MarkdownPhrase)
    requires
        p.wf(),
        reviews_wf(reviews@),
    ensures
        r@ == stored_phrase_note(*p, views(examples@), views(notes@), reviews@),
        r.wf(),
{
    let lines = review_lines(reviews);
    MarkdownPhrase {
        phrase: p.phrase.clone(),
        familiarity: p.familiarity,
        interval: p.interval,
        next_review: p.next_review,
        meaning: copy_opt(&p.meaning),
        examples,
        ai_explanation: None,
        my_notes: notes,
        reviews: lines,
    }
}

/// A stored entry: its id, and when it was last changed (nanoseconds since
/// the epoch).
#[derive(Clone, Copy, PartialEq, Eq, Structural, Debug)]
pub struct StoredStamp {
    pub id: i64,
    pub updated: i128,
}

/// What a note file changes in the database.
#[derive(Clone, Copy, PartialEq, Eq, Structural, Debug)]
pub enum SyncImport {
    /// Nothing: the stored entry is as new as the file.
    Skip,
    /// Add the entry (with its phonetic, meaning and examples); where
    /// `set_progress` holds, then store its familiarity, review date and
    /// interval.
    Insert { set_progress: bool },
    /// Store the file's phonetic, meaning, familiarity, review date and
    /// interval on the entry `id`.
    Update { id: i64 },
}

/// What a note file, changed at `file_modified`, with `familiarity` and
/// `interval`, changes in the database, which holds `stored` under its word
/// or phrase: a new entry is added, its progress stored only where there is
/// any; a stored entry is updated only where the file is newer.
pub open spec fn sync_import(
    file_modified: i128,
    stored: Option<StoredStamp>,
    familiarity: i32,
    interval: i32,
) -> SyncImport {
    match stored {
        None => SyncImport::Insert { set_progress: familiarity != 0 || interval != 0 },
        Some(e) => if file_modified > e.updated {
            SyncImport::Update { id: e.id }
        } else {
            SyncImport::Skip
        },
    }
}

/// Decides what a note file changes in the database.
pub fn plan_sync_import(
    file_modified: i128,
    stored: Option<StoredStamp>,
    familiarity: i32,
    interval: i32,
) -> (r: SyncImport)
    ensures
        r == sync_import(file_modified, stored, familiarity, interval),
{
    match stored {
        None => SyncImport::Insert { set_progress: familiarity != 0 || interval != 0 },
        Some(e) => if file_modified > e.updated {
            SyncImport::Update { id: e.id }
        } else {
            SyncImport::Skip
        },
    }
}

/// Between a note file and its stored entry, changed at different times,
/// only the newer side is copied onto the other: never both ways at once.
pub proof fn law_sync_one_way(file_modified: i128, e: StoredStamp, familiarity: i32, interval: i32)
    ensures
        !(export_needed(Some(file_modified), e.updated) && sync_import(
            file_modified,
            Some(e),
            familiarity,
            interval,
        ) != SyncImport::Skip),
        file_modified != e.updated ==> (export_needed(Some(file_modified), e.updated) || sync_import(
            file_modified,
            Some(e),
            familiarity,
            interval,
        ) != SyncImport::Skip),
{
}

/// A note for an entry that the database does not hold yet is always added;
/// its progress is stored exactly where it differs from a fresh entry's
/// (familiarity 0, interval 0), so a non-zero familiarity or a non-zero
/// interval alone is kept.
pub proof fn law_new_entry_progress(file_modified: i128, familiarity: i32, interval: i32)
    ensures
        (sync_import(file_modified, None, familiarity, interval) is Insert),
        familiarity != 0 ==> sync_import(file_modified, None, familiarity, interval)
            == (SyncImport::Insert { set_progress: true }),
        interval != 0 ==> sync_import(file_modified, None, familiarity, interval)
            == (SyncImport::Insert { set_progress: true }),
        familiarity == 0 && interval == 0 ==> sync_import(file_modified, None, familiarity, interval)
            == (SyncImport::Insert { set_progress: false }),
{
}

/// A stored entry is updated from a note exactly where the note is newer,
/// whatever progress the note holds, and never a new one added for it.
pub proof fn law_stored_entry_updates(
    file_modified: i128,
    e: StoredStamp,
    familiarity: i32,
    interval: i32,
)
    ensures
        file_modified > e.updated ==> sync_import(file_modified, Some(e), familiarity, interval)
            == (SyncImport::Update { id: e.id }),
        file_modified <= e.updated ==> sync_import(file_modified, Some(e), familiarity, interval)
            == SyncImport::Skip,
{
}

} // verus!
