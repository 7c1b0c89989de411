//! Requests about notes.

use vstd::prelude::*;

verus! {

/// Which entry's notes to list.
#[derive(Clone, Debug)]
pub struct NoteQuery {
    pub target_type: String,
    pub target_id: i64,
}

/// A note to add.
#[derive(Clone, Debug)]
pub struct CreateNoteBody {
    pub target_type: String,
    pub target_id: i64,
    pub content: String,
}

/// A note's new text and entry.
#[derive(Clone, Debug)]
pub struct UpdateNoteBody {
    pub target_type: String,
    pub target_id: i64,
    pub content: String,
}

} // verus!
