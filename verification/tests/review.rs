use chrono::{Datelike, NaiveDate, TimeZone, Utc};
use nevermind::commands::review::{
    calculate_streak_days, map_due_review_item, plan_review_submission, review_list_limit, streak_from_parsed,
    today_day_number, upcoming_reviews_data, SubmitReviewResultInput, MAX_DATE_CE, MIN_DATE_CE,
};
use nevermind::models::review::{DueReviewItem, ReviewResult, ReviewSchedule};
use nevermind::time::Timestamp;
use nevermind::utils::error::AppError;

fn day(y: i32, m: u32, d: u32) -> i32 {
    NaiveDate::from_ymd_opt(y, m, d).unwrap().num_days_from_ce()
}

fn at(y: i32, mo: u32, d: u32, h: u32) -> Timestamp {
    let dt = Utc.with_ymd_and_hms(y, mo, d, h, 0, 0).unwrap();
    Timestamp::new(dt.timestamp(), dt.timestamp_subsec_nanos())
}

#[test]
fn streak_counts_consecutive_days_ending_today() {
    let streak = calculate_streak_days(
        vec!["2026-04-18".to_string(), "2026-04-17".to_string(), "2026-04-16".to_string()],
        day(2026, 4, 18),
    )
    .unwrap();
    assert_eq!(streak, 3);
}

#[test]
fn streak_resets_when_today_has_no_completed_reviews() {
    let streak = calculate_streak_days(
        vec!["2026-04-17".to_string(), "2026-04-16".to_string()],
        day(2026, 4, 18),
    )
    .unwrap();
    assert_eq!(streak, 0);
}

#[test]
fn streak_stops_at_a_gap_and_skips_repeats() {
    let days = vec!["2026-04-18", "2026-04-17", "2026-04-17", "2026-04-15", "2026-04-14"]
        .into_iter()
        .map(String::from)
        .collect();
    assert_eq!(calculate_streak_days(days, day(2026, 4, 18)).unwrap(), 2);
    assert_eq!(calculate_streak_days(vec![], day(2026, 4, 18)).unwrap(), 0);
}

#[test]
fn streak_refuses_a_bad_date() {
    let err = calculate_streak_days(vec!["2026-04-18".into(), "04/17/2026".into()], day(2026, 4, 18)).unwrap_err();
    assert_eq!(err.code(), "INVALID_INPUT");
    assert_eq!(err.message(), "validation error: review_logs 日期格式非法");
    let at_min = streak_from_parsed(&vec![Some(MIN_DATE_CE), Some(MIN_DATE_CE - 1)], MIN_DATE_CE).unwrap();
    assert_eq!(at_min, 1);
}

#[test]
fn date_bounds_match_chrono() {
    assert_eq!(NaiveDate::MIN.num_days_from_ce(), MIN_DATE_CE);
    assert_eq!(NaiveDate::MAX.num_days_from_ce(), MAX_DATE_CE);
}

#[test]
fn today_is_the_utc_date() {
    assert_eq!(today_day_number(at(2026, 4, 18, 23)), day(2026, 4, 18));
    assert_eq!(today_day_number(Timestamp::new(-1, 0)), day(1969, 12, 31));
    assert_eq!(today_day_number(Timestamp::new(0, 0)), day(1970, 1, 1));
}

#[test]
fn review_limits_are_clamped() {
    assert_eq!(review_list_limit(None), 20);
    assert_eq!(review_list_limit(Some(0)), 1);
    assert_eq!(review_list_limit(Some(1000)), 100);
    assert_eq!(review_list_limit(Some(42)), 42);
}

fn item(id: &str, keyword: &str, question: &str, keywords: &str, hour: u32) -> DueReviewItem {
    DueReviewItem {
        review_id: format!("review-{}", id),
        card_id: format!("card-{}", id),
        keyword: keyword.into(),
        question: question.into(),
        keywords: keywords.into(),
        definition: "def".into(),
        explanation: "exp".into(),
        review_step: 1,
        due_at: at(2026, 4, 18, hour),
    }
}

#[test]
fn due_items_fall_back_to_keyword_question() {
    let c = map_due_review_item(item("1", "闭包", "  ", "", 9));
    assert_eq!(c.question, "闭包是什么？");
    assert_eq!(c.keywords, vec!["闭包".to_string()]);
    assert_eq!(c.tags, c.keywords);
    let c = map_due_review_item(item("2", "A", " 什么是 A？ ", r#"["A","B"]"#, 9));
    assert_eq!(c.question, "什么是 A？");
    assert_eq!(c.keywords, vec!["A".to_string(), "B".to_string()]);
}

#[test]
fn upcoming_summary_takes_the_first_due() {
    let d = upcoming_reviews_data(vec![item("1", "a", "", "[]", 9), item("2", "b", "", "[]", 12)], 7);
    assert_eq!(d.summary.upcoming_count, 7);
    assert_eq!(d.summary.earliest_due_at, Some(at(2026, 4, 18, 9)));
    assert_eq!(d.items.len(), 2);
    let e = upcoming_reviews_data(vec![], 0);
    assert_eq!(e.summary.earliest_due_at, None);
}

#[test]
fn submission_checks_the_card_and_logs_both_steps() {
    let schedule = ReviewSchedule {
        id: "review-submit-1".into(),
        card_id: "card-submit-1".into(),
        review_step: 2,
        due_at: at(2026, 4, 18, 9),
        status: "pending".into(),
        created_at: at(2026, 4, 1, 9),
        updated_at: at(2026, 4, 1, 9),
    };
    let input = SubmitReviewResultInput {
        review_id: "review-submit-1".into(),
        card_id: "card-submit-1".into(),
        result: ReviewResult::Remembered,
        reviewed_at: at(2026, 4, 18, 10),
    };
    let s = plan_review_submission(&schedule, &input, "log-1".into()).unwrap();
    assert_eq!(s.decision.next_step, 3);
    assert_eq!(s.decision.next_due_at, at(2026, 4, 21, 10));
    assert_eq!(s.log.result, "remembered");
    assert_eq!(s.log.previous_step, 2);
    assert_eq!(s.log.next_step, 3);
    let mut wrong = input.clone();
    wrong.card_id = "other".into();
    match plan_review_submission(&schedule, &wrong, "log-2".into()) {
        Err(AppError::Validation { message }) => assert_eq!(message, "reviewId 与 cardId 不匹配"),
        other => panic!("unexpected {:?}", other),
    }
}
