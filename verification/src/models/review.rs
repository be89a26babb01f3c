//! Review schedules, review logs and the outcome of a single review.

use vstd::prelude::*;

use crate::time::Timestamp;

verus! {

/// What the user reported after seeing a card.
#[derive(Debug, Clone, Copy, PartialEq, Eq, Structural)]
pub enum ReviewResult {
    Done,
    Remembered,
    Forgotten,
    Skipped,
}

/// The stable name of a review result, as stored in review logs.
pub open spec fn result_name(r: ReviewResult) -> Seq<char> {
    match r {
        ReviewResult::Done => "done"@,
        ReviewResult::Remembered => "remembered"@,
        ReviewResult::Forgotten => "forgotten"@,
        ReviewResult::Skipped => "skipped"@,
    }
}

impl ReviewResult {
    /// The stable name of this result.
    pub fn as_str(self) -> (s: &'static str)
        ensures
            s@ == result_name(self),
    {
        match self {
            Self::Done => "done",
            Self::Remembered => "remembered",
            Self::Forgotten => "forgotten",
            Self::Skipped => "skipped",
        }
    }
}

/// One scheduled review of one card.
#[derive(Debug, Clone, PartialEq, Eq)]
pub struct ReviewSchedule {
    pub id: String,
    pub card_id: String,
    pub review_step: i64,
    pub due_at: Timestamp,
    pub status: String,
    pub created_at: Timestamp,
    pub updated_at: Timestamp,
}

/// One recorded review.
#[derive(Debug, Clone, PartialEq, Eq)]
pub struct ReviewLog {
    pub id: String,
    pub review_schedule_id: String,
    pub card_id: String,
    pub result: String,
    pub previous_step: i64,
    pub next_step: i64,
    pub reviewed_at: Timestamp,
}

/// A due review joined with the card it is about.
///
/// `question` and `keywords` are the stored columns: the question may be empty and
/// `keywords` is the JSON text of the keyword array on older rows.
#[derive(Debug, Clone, PartialEq, Eq)]
pub struct DueReviewItem {
    pub review_id: String,
    pub card_id: String,
    pub keyword: String,
    pub question: String,
    pub keywords: String,
    pub definition: String,
    pub explanation: String,
    pub review_step: i64,
    pub due_at: Timestamp,
}

/// A review schedule about to be stored.
#[derive(Debug, Clone, PartialEq, Eq)]
pub struct NewReviewSchedule {
    pub id: String,
    pub card_id: String,
    pub review_step: i64,
    pub due_at: Timestamp,
    pub status: String,
}

/// A review log about to be stored.
#[derive(Debug, Clone, PartialEq, Eq)]
pub struct NewReviewLog {
    pub id: String,
    pub review_schedule_id: String,
    pub card_id: String,
    pub result: String,
    pub previous_step: i64,
    pub next_step: i64,
    pub reviewed_at: Timestamp,
}

} // verus!
