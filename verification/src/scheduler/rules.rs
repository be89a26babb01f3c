//! The review intervals of the forgetting-curve schedule.

use vstd::prelude::*;

verus! {

/// Days until the next review after reaching review step 1, 2, ... 6 (and beyond).
pub const REVIEW_INTERVAL_DAYS: [i64; 6] = [1, 1, 3, 7, 15, 30];

/// Hours a skipped card is postponed by.
pub const SKIPPED_DELAY_HOURS: i64 = 1;

/// The interval table as a sequence.
pub open spec fn interval_table() -> Seq<int> {
    seq![1, 1, 3, 7, 15, 30]
}

/// The interval, in days, for review step `step`: steps below 1 count as step 1 and
/// steps past the end of the table use its last entry.
pub open spec fn interval_days(step: int) -> int {
    if step <= 1 {
        interval_table()[0]
    } else if step >= 6 {
        interval_table()[5]
    } else {
        interval_table()[step - 1]
    }
}

/// The interval in days for a review step.
pub fn interval_days_for_step(step: i64) -> (days: i64)
    ensures
        days == interval_days(step as int),
        1 <= days <= 30,
{
    let normalized_step: i64 = if step < 1 { 1 } else { step };
    let index: usize = if normalized_step - 1 < 5 { (normalized_step - 1) as usize } else { 5 };
    let days = REVIEW_INTERVAL_DAYS[index];
    assert(REVIEW_INTERVAL_DAYS@ == seq![1i64, 1, 3, 7, 15, 30]);
    days
}

/// Every interval lies between one day and thirty days.
pub proof fn law_interval_bounds(step: int)
    ensures
        1 <= interval_days(step) <= 30,
{
}

/// A later review step never waits less than an earlier one.
pub proof fn law_interval_monotone(a: int, b: int)
    requires
        a <= b,
    ensures
        interval_days(a) <= interval_days(b),
{
}

/// From the sixth step on the interval stays at thirty days.
pub proof fn law_interval_saturates(step: int)
    requires
        step >= 6,
    ensures
        interval_days(step) == 30,
{
}

} // verus!
