use chrono::{TimeZone, Utc};
use nevermind::models::review::ReviewResult;
use nevermind::nevermind::scheduler::planner::build_initial_schedule;
use nevermind::scheduler::ebbinghaus::{first_review, next_review, review_inputs_valid};
use nevermind::scheduler::rules::interval_days_for_step;
use nevermind::time::Timestamp;

fn at(y: i32, mo: u32, d: u32, h: u32) -> Timestamp {
    let dt = Utc.with_ymd_and_hms(y, mo, d, h, 0, 0).unwrap();
    Timestamp::new(dt.timestamp(), dt.timestamp_subsec_nanos())
}

#[test]
fn remembered_moves_to_next_step() {
    let now = at(2026, 4, 18, 10);
    let decision = next_review(1, ReviewResult::Remembered, now);
    assert_eq!(decision.next_step, 2);
    assert_eq!(decision.next_due_at, at(2026, 4, 19, 10));
    assert_eq!(decision.status, "pending");
}

#[test]
fn forgotten_resets_to_first_step() {
    let now = at(2026, 4, 18, 10);
    let decision = next_review(4, ReviewResult::Forgotten, now);
    assert_eq!(decision.next_step, 1);
    assert_eq!(decision.next_due_at, at(2026, 4, 19, 10));
    assert_eq!(decision.status, "pending");
}

#[test]
fn skipped_keeps_step_and_delays_one_hour() {
    let now = at(2026, 4, 18, 10);
    let decision = next_review(3, ReviewResult::Skipped, now);
    assert_eq!(decision.next_step, 3);
    assert_eq!(decision.next_due_at, at(2026, 4, 18, 11));
    assert_eq!(decision.status, "pending");
}

#[test]
fn done_marks_schedule_as_completed() {
    let now = at(2026, 4, 18, 10);
    let decision = next_review(2, ReviewResult::Done, now);
    assert_eq!(decision.next_step, 2);
    assert_eq!(decision.next_due_at, now);
    assert_eq!(decision.status, "done");
}

#[test]
fn build_initial_schedule_follows_first_review_rule() {
    let created_at = at(2026, 4, 18, 10);
    let schedule = build_initial_schedule("schedule-1".to_string(), "card-1".to_string(), created_at);
    assert_eq!(schedule.id, "schedule-1");
    assert_eq!(schedule.card_id, "card-1");
    assert_eq!(schedule.review_step, 1);
    assert_eq!(schedule.due_at, at(2026, 4, 19, 10));
    assert_eq!(schedule.status, "pending");
}

#[test]
fn intervals_follow_the_table() {
    let days: Vec<i64> = (0..9).map(interval_days_for_step).collect();
    assert_eq!(days, vec![1, 1, 1, 3, 7, 15, 30, 30, 30]);
    assert_eq!(interval_days_for_step(i64::MIN), 1);
    assert_eq!(interval_days_for_step(i64::MAX), 30);
}

#[test]
fn remembered_at_late_steps_waits_thirty_days() {
    let now = at(2026, 1, 1, 0);
    let d = next_review(9, ReviewResult::Remembered, now);
    assert_eq!(d.next_step, 10);
    assert_eq!(d.next_due_at, at(2026, 1, 31, 0));
    let d = next_review(-3, ReviewResult::Skipped, now);
    assert_eq!(d.next_step, 1);
    let first = first_review(now);
    assert_eq!(first.next_step, 1);
    assert_eq!(first.next_due_at, at(2026, 1, 2, 0));
}

#[test]
fn review_inputs_outside_the_calendar_are_refused() {
    let last = Timestamp::new(8210266876799, 0);
    assert!(review_inputs_valid(1, ReviewResult::Done, last));
    assert!(!review_inputs_valid(1, ReviewResult::Skipped, last));
    assert!(!review_inputs_valid(i64::MAX, ReviewResult::Remembered, at(2026, 1, 1, 0)));
    assert!(review_inputs_valid(i64::MAX, ReviewResult::Forgotten, at(2026, 1, 1, 0)));
    assert!(!review_inputs_valid(1, ReviewResult::Done, Timestamp::new(0, 1_000_000_000)));
}

#[test]
fn utc_range_matches_chrono() {
    assert!(chrono::DateTime::<Utc>::from_timestamp(8210266876799, 0).is_some());
    assert!(chrono::DateTime::<Utc>::from_timestamp(8210266876800, 0).is_none());
    assert!(chrono::DateTime::<Utc>::from_timestamp(-8334601228800, 0).is_some());
    assert!(chrono::DateTime::<Utc>::from_timestamp(-8334601228801, 0).is_none());
}
