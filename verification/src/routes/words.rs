//! Requests about words.

use vstd::prelude::*;

verus! {

/// The query of a word listing.
#[derive(Clone, Debug)]
pub struct ListParams {
    pub search: Option<String>,
    pub familiarity_gte: Option<i32>,
    pub limit: Option<i64>,
    pub offset: Option<i64>,
}

/// The page a listing asks for: `limit` (50 where not given) entries from
/// `offset` (0 where not given).
pub open spec fn page_of(limit: Option<i64>, offset: Option<i64>) -> (i64, i64) {
    (
        match limit {
            Some(l) => l,
            None => 50,
        },
        match offset {
            Some(o) => o,
            None => 0,
        },
    )
}

/// The page asked for: how many entries, and from where.
pub fn page(limit: Option<i64>, offset: Option<i64>) -> (r: (i64, i64))
    ensures
        r == page_of(limit, offset),
{
    (
        match limit {
            Some(l) => l,
            None => 50,
        },
        match offset {
            Some(o) => o,
            None => 0,
        },
    )
}

impl ListParams {
    /// The page this query asks for.
    pub fn page(&self) -> (r: (i64, i64))
        ensures
            r == page_of(self.limit, self.offset),
    {
        page(self.limit, self.offset)
    }
}

/// A word to add.
#[derive(Clone, Debug)]
pub struct CreateWordBody {
    pub word: String,
    pub phonetic: Option<String>,
    pub meaning: Option<String>,
}

/// Changes to a word; what is not given stays.
#[derive(Clone, Debug)]
pub struct UpdateWordBody {
    pub word: Option<String>,
    pub phonetic: Option<String>,
    pub meaning: Option<String>,
    pub familiarity: Option<i32>,
}

} // verus!
