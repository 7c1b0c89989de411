//! Records kept in the database, as the library reads them.

use vstd::prelude::*;
use crate::datetime::DateTime;

verus! {

/// An example sentence of a word or phrase.
#[derive(Clone, Debug)]
pub struct Example {
    pub id: i64,
    pub target_type: String,
    pub target_id: i64,
    pub sentence: String,
    pub source: Option<String>,
}

/// A word to be added.
#[derive(Clone, Debug)]
pub struct NewWord {
    pub word: String,
    pub phonetic: Option<String>,
    pub meaning: Option<String>,
}

/// A phrase to be added.
#[derive(Clone, Debug)]
pub struct NewPhrase {
    pub phrase: String,
    pub meaning: Option<String>,
}

/// What note synchronisation reads of a stored word.
#[derive(Clone, Debug)]
pub struct WordSummary {
    pub id: i64,
    pub word: String,
    pub phonetic: Option<String>,
    pub familiarity: i32,
    pub interval: i32,
    pub next_review: Option<DateTime>,
    pub meaning: Option<String>,
    pub updated_at: DateTime,
}

/// What note synchronisation reads of a stored phrase.
#[derive(Clone, Debug)]
pub struct PhraseSummary {
    pub id: i64,
    pub phrase: String,
    pub familiarity: i32,
    pub interval: i32,
    pub next_review: Option<DateTime>,
    pub meaning: Option<String>,
    pub updated_at: DateTime,
}

/// One past review: when, and its grade.
#[derive(Clone, Copy, Debug)]
pub struct ReviewInfo {
    pub reviewed_at: DateTime,
    pub quality: i32,
}

impl WordSummary {
    /// Its dates are ones chrono can hold, as dates read from the database
    /// are.
    pub open spec fn wf(&self) -> bool {
        &&& (self.next_review matches Some(d) ==> d.wf())
        &&& self.updated_at.wf()
    }
}

impl PhraseSummary {
    /// Its dates are ones chrono can hold, as dates read from the database
    /// are.
    pub open spec fn wf(&self) -> bool {
        &&& (self.next_review matches Some(d) ==> d.wf())
        &&& self.updated_at.wf()
    }
}

} // verus!
