//! The first review schedule of a new card.

use vstd::prelude::*;

use crate::models::review::NewReviewSchedule;
use crate::scheduler::ebbinghaus::first_review;
use crate::scheduler::rules::interval_days;
use crate::time::{utc_secs_in_range, Timestamp, SECONDS_PER_DAY};

verus! {

/// The first review schedule of a card created at `created_at`: step 1, pending, due one
/// first interval (a day) later.
pub fn build_initial_schedule(schedule_id: String, card_id: String, created_at: Timestamp) -> (r: NewReviewSchedule)
    requires
        created_at.wf(),
        utc_secs_in_range(created_at.secs + interval_days(1) * SECONDS_PER_DAY),
    ensures
        r.id == schedule_id,
        r.card_id == card_id,
        r.review_step == 1,
        r.due_at == created_at.plus_secs(interval_days(1) * SECONDS_PER_DAY),
        r.status@ == "pending"@,
{
    let d = first_review(created_at);
    NewReviewSchedule {
        id: schedule_id,
        card_id,
        review_step: d.next_step,
        due_at: d.next_due_at,
        status: String::from_str(d.status),
    }
}

} // verus!
