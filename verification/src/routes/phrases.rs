//! Requests about phrases.

use vstd::prelude::*;
use crate::text::push_decimal;

verus! {

/// The query of a phrase listing.
#[derive(Clone, Debug)]
pub struct ListParams {
    pub search: Option<String>,
    pub familiarity_gte: Option<i32>,
    pub limit: Option<i64>,
    pub offset: Option<i64>,
}

impl ListParams {
    /// The page this query asks for.
    pub fn page(&self) -> (r: (i64, i64))
        ensures
            r == crate::routes::words::page_of(self.limit, self.offset),
    {
        crate::routes::words::page(self.limit, self.offset)
    }
}

/// A phrase to add.
#[derive(Clone, Debug)]
pub struct CreatePhraseBody {
    pub phrase: String,
    pub meaning: Option<String>,
}

/// Changes to a phrase; what is not given stays.
#[derive(Clone, Debug)]
pub struct UpdatePhraseBody {
    pub phrase: Option<String>,
    pub meaning: Option<String>,
    pub familiarity: Option<i32>,
}

/// What the AI is asked to explain for the phrase `id`: its text where it
/// was found, else `phrase_` and the id.
pub fn phrase_subject(found: Option<String>, id: i64) -> (r: String)
    ensures
        r@ == (match found {
            Some(p) => p@,
            None => "phrase_"@ + crate::text::decimal(id as int),
        }),
{
    match found {
        Some(p) => p,
        None => {
            let mut r = String::from_str("phrase_");
            push_decimal(&mut r, id as i64);
            r
        },
    }
}

} // verus!
