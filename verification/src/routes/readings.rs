//! Requests about readings.

use vstd::prelude::*;

verus! {

/// The query of a reading listing.
#[derive(Clone, Debug)]
pub struct ListParams {
    pub limit: Option<i64>,
    pub offset: Option<i64>,
}

impl ListParams {
    /// The page this query asks for.
    pub fn page(&self) -> (r: (i64, i64))
        ensures
            r == crate::routes::words::page_of(self.limit, self.offset),
    {
        crate::routes::words::page(self.limit, self.offset)
    }
}

/// A reading to add.
#[derive(Clone, Debug)]
pub struct CreateReadingBody {
    pub title: Option<String>,
    pub content: String,
    pub source: Option<String>,
}

} // verus!
