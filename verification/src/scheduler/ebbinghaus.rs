//! The forgetting-curve scheduler: where a card goes after a review.

use vstd::prelude::*;

use crate::models::review::ReviewResult;
use crate::scheduler::rules::{interval_days, interval_days_for_step, SKIPPED_DELAY_HOURS};
use crate::time::{add_seconds, utc_secs_in_range, Timestamp, SECONDS_PER_DAY, SECONDS_PER_HOUR};

verus! {

/// Where a card's schedule goes after a review.
#[derive(Debug, Clone, PartialEq, Eq)]
pub struct NextReviewDecision {
    pub next_step: i64,
    pub next_due_at: Timestamp,
    pub status: &'static str,
}

/// The step a schedule moves to: remembered advances one step past at least step 1,
/// forgotten resets to step 1, and skipped or done keep the step (at least 1).
pub open spec fn decided_step(step: int, result: ReviewResult) -> int {
    let base = if step < 1 { 1 } else { step };
    match result {
        ReviewResult::Remembered => base + 1,
        ReviewResult::Forgotten => 1,
        ReviewResult::Skipped => base,
        ReviewResult::Done => base,
    }
}

/// How many seconds after the review the next one falls due.
pub open spec fn decided_delay_secs(step: int, result: ReviewResult) -> int {
    match result {
        ReviewResult::Remembered => interval_days(decided_step(step, result)) * SECONDS_PER_DAY,
        ReviewResult::Forgotten => interval_days(1) * SECONDS_PER_DAY,
        ReviewResult::Skipped => SKIPPED_DELAY_HOURS * SECONDS_PER_HOUR,
        ReviewResult::Done => 0,
    }
}

/// The schedule's status afterwards: only a done review closes it.
pub open spec fn decided_status(result: ReviewResult) -> Seq<char> {
    match result {
        ReviewResult::Done => "done"@,
        _ => "pending"@,
    }
}

/// The inputs on which `next_review` is defined: the review instant is well formed,
/// the next due instant stays within the range of `DateTime<Utc>`, and advancing the
/// step does not overflow.
pub open spec fn review_inputs_ok(step: i64, result: ReviewResult, reviewed_at: Timestamp) -> bool {
    &&& reviewed_at.wf()
    &&& utc_secs_in_range(reviewed_at.secs + decided_delay_secs(step as int, result))
    &&& (result is Remembered ==> step < i64::MAX)
}

/// Whether `next_review` is defined on these inputs.
pub fn review_inputs_valid(step: i64, result: ReviewResult, reviewed_at: Timestamp) -> (r: bool)
    ensures
        r == review_inputs_ok(step, result, reviewed_at),
{
    if !(reviewed_at.nanos < 1_000_000_000 && crate::time::MIN_UTC_SECS <= reviewed_at.secs
        && reviewed_at.secs <= crate::time::MAX_UTC_SECS) {
        return false;
    }
    let delay: i64 = match result {
        ReviewResult::Remembered => {
            if step == i64::MAX {
                return false;
            }
            let base: i64 = if step < 1 { 1 } else { step };
            interval_days_for_step(base + 1) * SECONDS_PER_DAY
        },
        ReviewResult::Forgotten => interval_days_for_step(1) * SECONDS_PER_DAY,
        ReviewResult::Skipped => SKIPPED_DELAY_HOURS * SECONDS_PER_HOUR,
        ReviewResult::Done => 0,
    };
    let due = reviewed_at.secs + delay;
    crate::time::MIN_UTC_SECS <= due && due <= crate::time::MAX_UTC_SECS
}

/// Decides the next step, due instant and status of a schedule after a review.
pub fn next_review(current_step: i64, result: ReviewResult, reviewed_at: Timestamp) -> (d: NextReviewDecision)
    requires
        review_inputs_ok(current_step, result, reviewed_at),
    ensures
        d.next_step == decided_step(current_step as int, result),
        d.next_due_at == reviewed_at.plus_secs(decided_delay_secs(current_step as int, result)),
        d.status@ == decided_status(result),
{
    let base: i64 = if current_step < 1 { 1 } else { current_step };
    match result {
        ReviewResult::Remembered => {
            let next_step = base + 1;
            let days = interval_days_for_step(next_step);
            let next_due_at = add_seconds(reviewed_at, days * SECONDS_PER_DAY);
            NextReviewDecision { next_step, next_due_at, status: "pending" }
        },
        ReviewResult::Forgotten => {
            let days = interval_days_for_step(1);
            let next_due_at = add_seconds(reviewed_at, days * SECONDS_PER_DAY);
            NextReviewDecision { next_step: 1, next_due_at, status: "pending" }
        },
        ReviewResult::Skipped => {
            let next_due_at = add_seconds(reviewed_at, SKIPPED_DELAY_HOURS * SECONDS_PER_HOUR);
            NextReviewDecision { next_step: base, next_due_at, status: "pending" }
        },
        ReviewResult::Done => {
            assert(reviewed_at.plus_secs(0) == reviewed_at);
            NextReviewDecision { next_step: base, next_due_at: reviewed_at, status: "done" }
        },
    }
}

/// The schedule of a newly created card: step 1, due one first interval later.
pub fn first_review(created_at: Timestamp) -> (d: NextReviewDecision)
    requires
        created_at.wf(),
        utc_secs_in_range(created_at.secs + interval_days(1) * SECONDS_PER_DAY),
    ensures
        d.next_step == 1,
        d.next_due_at == created_at.plus_secs(interval_days(1) * SECONDS_PER_DAY),
        d.status@ == "pending"@,
{
    let days = interval_days_for_step(1);
    let next_due_at = add_seconds(created_at, days * SECONDS_PER_DAY);
    NextReviewDecision { next_step: 1, next_due_at, status: "pending" }
}

/// A review never schedules the next one before the review itself, and every outcome but
/// `Done` schedules it strictly later.
pub proof fn law_next_review_not_earlier(step: i64, result: ReviewResult, reviewed_at: Timestamp)
    requires
        review_inputs_ok(step, result, reviewed_at),
    ensures
        !reviewed_at.plus_secs(decided_delay_secs(step as int, result)).is_before(reviewed_at),
        !(result is Done) ==> reviewed_at.is_before(
            reviewed_at.plus_secs(decided_delay_secs(step as int, result)),
        ),
{
    crate::scheduler::rules::law_interval_bounds(decided_step(step as int, result));
}

/// Remembering a card moves it one step past where it was (counting steps below 1 as 1);
/// forgetting it sends it back to the first step; skipping keeps its step and postpones it
/// by exactly one hour; finishing keeps its step and closes the schedule at the review instant.
pub proof fn law_review_outcomes(step: i64, reviewed_at: Timestamp)
    ensures
        decided_step(step as int, ReviewResult::Remembered) > step,
        decided_step(step as int, ReviewResult::Remembered) >= 2,
        decided_step(step as int, ReviewResult::Forgotten) == 1,
        decided_delay_secs(step as int, ReviewResult::Forgotten) == SECONDS_PER_DAY,
        decided_step(step as int, ReviewResult::Skipped) == decided_step(step as int, ReviewResult::Done),
        decided_step(step as int, ReviewResult::Skipped) >= step,
        decided_delay_secs(step as int, ReviewResult::Skipped) == SECONDS_PER_HOUR,
        decided_delay_secs(step as int, ReviewResult::Done) == 0,
        decided_status(ReviewResult::Done) == "done"@,
        decided_status(ReviewResult::Remembered) == "pending"@,
        decided_status(ReviewResult::Forgotten) == "pending"@,
        decided_status(ReviewResult::Skipped) == "pending"@,
{
}

/// A card remembered at a higher step never comes back sooner than one remembered at a
/// lower step, and no remembered card waits more than thirty days.
pub proof fn law_remembered_interval_grows(a: i64, b: i64)
    requires
        a <= b,
    ensures
        decided_delay_secs(a as int, ReviewResult::Remembered) <= decided_delay_secs(
            b as int,
            ReviewResult::Remembered,
        ),
        decided_delay_secs(b as int, ReviewResult::Remembered) <= 30 * SECONDS_PER_DAY,
        decided_delay_secs(a as int, ReviewResult::Remembered) >= SECONDS_PER_DAY,
{
    crate::scheduler::rules::law_interval_monotone(
        decided_step(a as int, ReviewResult::Remembered),
        decided_step(b as int, ReviewResult::Remembered),
    );
    crate::scheduler::rules::law_interval_bounds(decided_step(b as int, ReviewResult::Remembered));
    crate::scheduler::rules::law_interval_bounds(decided_step(a as int, ReviewResult::Remembered));
}

/// A new card is scheduled exactly as a forgotten one: step 1, one day later, pending.
pub proof fn law_first_review_is_reset(step: i64, t: Timestamp)
    ensures
        decided_step(step as int, ReviewResult::Forgotten) == 1,
        decided_delay_secs(step as int, ReviewResult::Forgotten) == interval_days(1) * SECONDS_PER_DAY,
        decided_status(ReviewResult::Forgotten) == "pending"@,
{
}

} // verus!
