//! Requests about reviews.

use vstd::prelude::*;
use crate::review::{check_review_submit, target_named, ReviewRequestError, ReviewTarget};

verus! {

/// A submitted review grade.
#[derive(Clone, Copy, Debug)]
pub struct ReviewSubmit {
    pub quality: i32,
}

impl ReviewSubmit {
    /// Checks the grade (0 to 5) and then the target (`word` or `phrase`).
    pub fn check(&self, target_type: &str) -> (r: Result<ReviewTarget, ReviewRequestError>)
        ensures
            r == (if self.quality < 0 || self.quality > 5 {
                Err(ReviewRequestError::QualityOutOfRange)
            } else {
                match target_named(target_type@) {
                    Some(t) => Ok(t),
                    None => Err(ReviewRequestError::UnknownTarget),
                }
            }),
    {
        check_review_submit(target_type, self.quality)
    }
}

} // verus!
