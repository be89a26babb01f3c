//! The review queue: listing due and upcoming reviews, recording a review, and the
//! dashboard with its streak of review days.

use vstd::prelude::*;

pub use crate::commands::settings::CommandResponse;
use crate::models::card::{decode_json_strings, effective_question_of, json_string_array};
use crate::models::review::{
    result_name, DueReviewItem, NewReviewLog, ReviewResult, ReviewSchedule,
};
use crate::scheduler::ebbinghaus::{
    decided_delay_secs, decided_status, decided_step, next_review, review_inputs_ok,
    NextReviewDecision,
};
use crate::text::{trim, trimmed_chars_of};
use crate::time::{day_of, Timestamp, SECONDS_PER_DAY};
use crate::utils::error::AppError;

verus! {

// ---------------------------------------------------------------------------
// Shapes
// ---------------------------------------------------------------------------

/// A request for the due reviews.
#[derive(Debug, Clone, PartialEq, Eq, Default)]
pub struct ListDueReviewsInput {
    pub limit: Option<i64>,
    pub cursor: Option<String>,
    pub include_completed_today: Option<bool>,
}

/// A review as shown: the card's question and keywords with the schedule's step and due
/// instant.
#[derive(Debug, Clone, PartialEq, Eq)]
pub struct DueReviewCard {
    pub review_id: String,
    pub card_id: String,
    /// The main keyword.
    pub keyword: String,
    /// The full question shown on the front.
    pub question: String,
    /// The keywords shown on the back.
    pub keywords: Vec<String>,
    pub definition: String,
    pub explanation: String,
    pub review_step: i64,
    pub due_at: Timestamp,
    /// The keywords again, for older views.
    pub tags: Vec<String>,
}

/// How many reviews are due, and how many were done today.
#[derive(Debug, Clone, PartialEq, Eq)]
pub struct DueReviewsSummary {
    pub due_count: i64,
    pub completed_today: i64,
}

/// The due reviews.
#[derive(Debug, Clone, PartialEq, Eq)]
pub struct ListDueReviewsData {
    pub items: Vec<DueReviewCard>,
    pub next_cursor: Option<String>,
    pub summary: DueReviewsSummary,
}

/// A request for the reviews not yet due.
#[derive(Debug, Clone, PartialEq, Eq, Default)]
pub struct ListUpcomingReviewsInput {
    pub limit: Option<i64>,
}

/// How many pending reviews are not yet due, and when the first of them falls due.
#[derive(Debug, Clone, PartialEq, Eq)]
pub struct UpcomingReviewsSummary {
    pub upcoming_count: i64,
    pub earliest_due_at: Option<Timestamp>,
}

/// The reviews not yet due.
#[derive(Debug, Clone, PartialEq, Eq)]
pub struct ListUpcomingReviewsData {
    pub items: Vec<DueReviewCard>,
    pub summary: UpcomingReviewsSummary,
}

/// A review the user has just made.
#[derive(Debug, Clone, PartialEq, Eq)]
pub struct SubmitReviewResultInput {
    pub review_id: String,
    pub card_id: String,
    pub result: ReviewResult,
    pub reviewed_at: Timestamp,
}

/// Where the card went after a review, and how many reviews are still due.
#[derive(Debug, Clone, PartialEq, Eq)]
pub struct SubmitReviewResultData {
    pub card_id: String,
    pub result: ReviewResult,
    pub previous_step: i64,
    pub next_step: i64,
    pub next_review_at: Timestamp,
    pub remaining_due_count: i64,
}

/// The review dashboard.
#[derive(Debug, Clone, PartialEq, Eq)]
pub struct ReviewDashboardData {
    pub due_today: i64,
    pub completed_today: i64,
    pub streak_days: i64,
    pub next_due_at: Option<Timestamp>,
}

// ---------------------------------------------------------------------------
// Listing
// ---------------------------------------------------------------------------

pub const DEFAULT_REVIEW_LIST_LIMIT: i64 = 20;
pub const MIN_REVIEW_LIST_LIMIT: i64 = 1;
pub const MAX_REVIEW_LIST_LIMIT: i64 = 100;

/// The number of reviews a listing returns: 20 unless asked, and within 1..=100.
pub open spec fn review_limit_of(limit: Option<i64>) -> i64 {
    let n = match limit {
        Some(n) => n,
        None => DEFAULT_REVIEW_LIST_LIMIT,
    };
    if n < MIN_REVIEW_LIST_LIMIT {
        MIN_REVIEW_LIST_LIMIT
    } else if n > MAX_REVIEW_LIST_LIMIT {
        MAX_REVIEW_LIST_LIMIT
    } else {
        n
    }
}

/// The number of reviews a listing returns.
pub fn review_list_limit(limit: Option<i64>) -> (r: i64)
    ensures
        r == review_limit_of(limit),
{
    let n = match limit {
        Some(n) => n,
        None => DEFAULT_REVIEW_LIST_LIMIT,
    };
    if n < MIN_REVIEW_LIST_LIMIT {
        MIN_REVIEW_LIST_LIMIT
    } else if n > MAX_REVIEW_LIST_LIMIT {
        MAX_REVIEW_LIST_LIMIT
    } else {
        n
    }
}

/// Whether the due listing also counts the reviews done today.
pub fn wants_completed_today(input: &ListDueReviewsInput) -> (r: bool)
    ensures
        r == (input.include_completed_today == Some(true)),
{
    match input.include_completed_today {
        Some(b) => b,
        None => false,
    }
}

/// The keywords shown for a review: the stored JSON array when it decodes, else none; and
/// the main keyword alone when that leaves none and the keyword is not blank.
pub open spec fn review_keywords_of(keyword: Seq<char>, raw: Seq<char>) -> Seq<Seq<char>> {
    let parsed = match json_string_array(raw) {
        Some(v) => v,
        None => Seq::empty(),
    };
    if parsed.len() == 0 && trim(keyword).len() > 0 {
        seq![keyword]
    } else {
        parsed
    }
}

/// `c` shows the review `item`.
pub open spec fn shows_review(item: DueReviewItem, c: DueReviewCard) -> bool {
    &&& c.review_id == item.review_id
    &&& c.card_id == item.card_id
    &&& c.keyword == item.keyword
    &&& c.question@ == effective_question_of(item.keyword@, item.question@)
    &&& c.keywords.deep_view() == review_keywords_of(item.keyword@, item.keywords@)
    &&& c.tags.deep_view() == review_keywords_of(item.keyword@, item.keywords@)
    &&& c.definition == item.definition
    &&& c.explanation == item.explanation
    &&& c.review_step == item.review_step
    &&& c.due_at == item.due_at
}

/// A copy of some strings.
fn clone_strings(v: &Vec<String>) -> (r: Vec<String>)
    ensures
        r@ == v@,
{
    let mut r: Vec<String> = Vec::new();
    let mut i: usize = 0;
    while i < v.len()
        invariant
            i <= v@.len(),
            r@ == v@.take(i as int),
        decreases v@.len() - i,
    {
        r.push(v[i].clone());
        assert(r@ =~= v@.take(i + 1));
        i += 1;
    }
    assert(v@.take(i as int) =~= v@);
    r
}

/// A due review as shown.
pub fn map_due_review_item(item: DueReviewItem) -> (r: DueReviewCard)
    ensures
        shows_review(item, r),
{
    let question = crate::models::card::effective_question_text(item.keyword.as_str(), item.question.as_str());
    let mut keywords: Vec<String> = match decode_json_strings(item.keywords.as_str()) {
        Some(v) => v,
        None => {
            let v: Vec<String> = Vec::new();
            assert(v.deep_view() =~= Seq::<Seq<char>>::empty());
            v
        },
    };
    if keywords.len() == 0 && trimmed_chars_of(item.keyword.as_str()).len() > 0 {
        keywords.push(item.keyword.clone());
        assert(keywords.deep_view() =~= seq![item.keyword@]);
    }
    let tags = clone_strings(&keywords);
    assert(tags.deep_view() =~= keywords.deep_view());
    DueReviewCard {
        review_id: item.review_id,
        card_id: item.card_id,
        keyword: item.keyword,
        question,
        keywords,
        definition: item.definition,
        explanation: item.explanation,
        review_step: item.review_step,
        due_at: item.due_at,
        tags,
    }
}

/// `cards` shows, one for one and in order, the reviews `items`.
pub open spec fn shows_reviews(items: Seq<DueReviewItem>, cards: Seq<DueReviewCard>) -> bool {
    &&& cards.len() == items.len()
    &&& forall|i: int| 0 <= i < items.len() ==> shows_review(#[trigger] items[i], cards[i])
}

/// The reviews as shown, in order.
pub fn map_due_review_items(items: Vec<DueReviewItem>) -> (r: Vec<DueReviewCard>)
    ensures
        shows_reviews(items@, r@),
{
    let ghost all = items@;
    let mut rest = items;
    let mut out: Vec<DueReviewCard> = Vec::new();
    while rest.len() > 0
        invariant
            out@.len() <= all.len(),
            rest@ == all.skip(out@.len() as int),
            shows_reviews(all.take(out@.len() as int), out@),
        decreases rest@.len(),
    {
        let ghost n = out@.len() as int;
        let item = rest.remove(0);
        assert(item == all[n]);
        assert(rest@ =~= all.skip(n + 1));
        out.push(map_due_review_item(item));
        assert forall|i: int| 0 <= i < n + 1 implies shows_review(#[trigger] all.take(n + 1)[i], out@[i]) by {
            if i < n {
                assert(all.take(n + 1)[i] == all.take(n)[i]);
            }
        }
    }
    assert(all.take(all.len() as int) =~= all);
    out
}

/// The due listing: the reviews as shown, no further page, and the counts.
pub fn due_reviews_data(items: Vec<DueReviewItem>, due_count: i64, completed_today: i64) -> (r: ListDueReviewsData)
    ensures
        shows_reviews(items@, r.items@),
        r.next_cursor is None,
        r.summary.due_count == due_count,
        r.summary.completed_today == completed_today,
{
    ListDueReviewsData {
        items: map_due_review_items(items),
        next_cursor: None,
        summary: DueReviewsSummary { due_count, completed_today },
    }
}

/// The upcoming listing: the reviews as shown, their count, and when the first listed one
/// falls due.
pub fn upcoming_reviews_data(items: Vec<DueReviewItem>, upcoming_count: i64) -> (r: ListUpcomingReviewsData)
    ensures
        shows_reviews(items@, r.items@),
        r.summary.upcoming_count == upcoming_count,
        r.summary.earliest_due_at == if items@.len() > 0 {
            Some(items@[0].due_at)
        } else {
            None
        },
{
    let earliest_due_at = if items.len() > 0 {
        Some(items[0].due_at)
    } else {
        None
    };
    ListUpcomingReviewsData {
        items: map_due_review_items(items),
        summary: UpcomingReviewsSummary { upcoming_count, earliest_due_at },
    }
}

// ---------------------------------------------------------------------------
// Recording a review
// ---------------------------------------------------------------------------

/// What recording a review stores: the schedule's next step, due instant and status, and
/// the review log.
#[derive(Debug, Clone, PartialEq, Eq)]
pub struct ReviewSubmission {
    pub decision: NextReviewDecision,
    pub log: NewReviewLog,
}

/// What to store for a review of the schedule, with `log_id` as the new log's id.
///
/// The review must be about the schedule's card; the schedule then moves as the
/// forgetting curve decides, and the log records the result and both steps.
pub fn plan_review_submission(schedule: &ReviewSchedule, input: &SubmitReviewResultInput, log_id: String) -> (r: Result<ReviewSubmission, AppError>)
    requires
        schedule.card_id@ == input.card_id@ ==> review_inputs_ok(schedule.review_step, input.result, input.reviewed_at),
    ensures
        r is Ok <==> schedule.card_id@ == input.card_id@,
        r matches Err(e) ==> e matches AppError::Validation { message } && message@ == "reviewId 与 cardId 不匹配"@,
        r matches Ok(s) ==> {
            &&& s.decision.next_step == decided_step(schedule.review_step as int, input.result)
            &&& s.decision.next_due_at == input.reviewed_at.plus_secs(
                decided_delay_secs(schedule.review_step as int, input.result),
            )
            &&& s.decision.status@ == decided_status(input.result)
            &&& s.log.id == log_id
            &&& s.log.review_schedule_id == input.review_id
            &&& s.log.card_id == input.card_id
            &&& s.log.result@ == result_name(input.result)
            &&& s.log.previous_step == schedule.review_step
            &&& s.log.next_step == s.decision.next_step
            &&& s.log.reviewed_at == input.reviewed_at
        },
{
    if !crate::text::str_eq(schedule.card_id.as_str(), input.card_id.as_str()) {
        return Err(AppError::Validation { message: String::from_str("reviewId 与 cardId 不匹配") });
    }
    let decision = next_review(schedule.review_step, input.result, input.reviewed_at);
    let log = NewReviewLog {
        id: log_id,
        review_schedule_id: input.review_id.clone(),
        card_id: input.card_id.clone(),
        result: String::from_str(input.result.as_str()),
        previous_step: schedule.review_step,
        next_step: decision.next_step,
        reviewed_at: input.reviewed_at,
    };
    Ok(ReviewSubmission { decision, log })
}

/// The reply to a recorded review.
pub fn submission_data(input: SubmitReviewResultInput, submission: &ReviewSubmission, remaining_due_count: i64) -> (r: SubmitReviewResultData)
    ensures
        r.card_id == input.card_id,
        r.result == input.result,
        r.previous_step == submission.log.previous_step,
        r.next_step == submission.decision.next_step,
        r.next_review_at == submission.decision.next_due_at,
        r.remaining_due_count == remaining_due_count,
{
    SubmitReviewResultData {
        card_id: input.card_id,
        result: input.result,
        previous_step: submission.log.previous_step,
        next_step: submission.decision.next_step,
        next_review_at: submission.decision.next_due_at,
        remaining_due_count,
    }
}

// ---------------------------------------------------------------------------
// The streak of review days
// ---------------------------------------------------------------------------

/// The day count, from 0001-01-01 as day 1, of 1970-01-01.
pub const UNIX_EPOCH_DAY_CE: i32 = 719163;

/// The day count of the earliest date chrono's `NaiveDate` holds (January 1 of the year
/// -262143), with 0001-01-01 as day 1.
pub const MIN_DATE_CE: i32 = -95746129;

/// The day count of the latest date chrono's `NaiveDate` holds (December 31 of the year
/// 262142), with 0001-01-01 as day 1.
pub const MAX_DATE_CE: i32 = 95745399;

/// What `NaiveDate::parse_from_str(s, "%Y-%m-%d")` gives, as the date's day count with
/// 0001-01-01 as day 1 (its `num_days_from_ce`), or `None` when it fails.
pub uninterp spec fn ymd_day_number(s: Seq<char>) -> Option<i32>;

/// Calls chrono's `NaiveDate::parse_from_str` with the format "%Y-%m-%d" and reads the
/// date's `num_days_from_ce`; the outcome is named by `ymd_day_number`. A `NaiveDate`
/// lies between `NaiveDate::MIN` and `NaiveDate::MAX`, whose day counts are the bounds
/// stated.
#[verifier::external_body]
fn parse_ymd_day(s: &str) -> (r: Option<i32>)
    ensures
        r == ymd_day_number(s@),
        r matches Some(d) ==> MIN_DATE_CE <= d <= MAX_DATE_CE,
{
    match chrono::NaiveDate::parse_from_str(s, "%Y-%m-%d") {
        Ok(d) => Some(chrono::Datelike::num_days_from_ce(&d)),
        Err(_) => None,
    }
}

/// The day count (0001-01-01 as day 1) of the UTC date holding `now`.
pub fn today_day_number(now: Timestamp) -> (r: i32)
    requires
        now.wf(),
    ensures
        r == day_of(now.secs as int) + UNIX_EPOCH_DAY_CE,
{
    let days: i64 = if now.secs >= 0 {
        now.secs / SECONDS_PER_DAY
    } else {
        let m: i64 = -(now.secs + 1);
        let q: i64 = m / SECONDS_PER_DAY;
        assert(-(q + 1) == day_of(now.secs as int)) by (nonlinear_arith)
            requires
                m == -(now.secs + 1),
                m >= 0,
                q == m / 86400,
                SECONDS_PER_DAY == 86400,
        ;
        -(q + 1)
    };
    assert(-96465292 <= days <= 95026236) by (nonlinear_arith)
        requires
            days == day_of(now.secs as int),
            -8334601228800 <= now.secs <= 8210266876799,
            SECONDS_PER_DAY == 86400,
    ;
    (days + 719163) as i32
}

/// The run of consecutive days before `expected` found going down the list: a day one
/// before `expected` extends the run, a later day is passed over, an earlier day ends it,
/// and so does the earliest date.
pub open spec fn streak_run(ds: Seq<i32>, expected: int) -> int
    decreases ds.len(),
{
    if ds.len() == 0 || expected <= MIN_DATE_CE {
        0
    } else if ds[0] == expected - 1 {
        1 + streak_run(ds.drop_first(), expected - 1)
    } else if ds[0] < expected - 1 {
        0
    } else {
        streak_run(ds.drop_first(), expected)
    }
}

/// The streak of review days ending today, over days listed latest first: none unless the
/// first listed day is today.
pub open spec fn streak_days_of(ds: Seq<i32>, today: int) -> int {
    if ds.len() == 0 || ds[0] != today {
        0
    } else {
        1 + streak_run(ds.drop_first(), today)
    }
}

proof fn lemma_streak_run_bounded(ds: Seq<i32>, expected: int)
    ensures
        0 <= streak_run(ds, expected) <= ds.len(),
    decreases ds.len(),
{
    if ds.len() > 0 && expected > MIN_DATE_CE {
        if ds[0] == expected - 1 {
            lemma_streak_run_bounded(ds.drop_first(), expected - 1);
        } else if ds[0] >= expected - 1 {
            lemma_streak_run_bounded(ds.drop_first(), expected);
        }
    }
}

/// The parsed days, where every one parsed.
pub open spec fn parsed_days(parsed: Seq<Option<i32>>) -> Seq<i32> {
    parsed.map_values(|o: Option<i32>| match o {
        Some(d) => d,
        None => 0i32,
    })
}

/// The streak of review days from the parsed dates of the review days, latest first.
///
/// No days give no streak; a day that did not parse is refused; otherwise the streak is
/// counted as `streak_days_of` says.
pub fn streak_from_parsed(parsed: &Vec<Option<i32>>, today: i32) -> (r: Result<i64, AppError>)
    requires
        parsed@.len() < i64::MAX,
    ensures
        parsed@.len() == 0 ==> r == Ok::<i64, AppError>(0),
        parsed@.len() > 0 && (exists|i: int| 0 <= i < parsed@.len() && (#[trigger] parsed@[i]) is None) ==> (r matches Err(
            e,
        ) && e matches AppError::Validation { message } && message@ == "review_logs 日期格式非法"@),
        (forall|i: int| 0 <= i < parsed@.len() ==> (#[trigger] parsed@[i]) is Some) ==> r == Ok::<i64, AppError>(
            streak_days_of(parsed_days(parsed@), today as int) as i64,
        ),
{
    if parsed.len() == 0 {
        return Ok(0);
    }
    let mut days: Vec<i32> = Vec::new();
    let mut i: usize = 0;
    while i < parsed.len()
        invariant
            i <= parsed@.len(),
            days@ == parsed_days(parsed@).take(i as int),
            forall|k: int| 0 <= k < i ==> (#[trigger] parsed@[k]) is Some,
        decreases parsed@.len() - i,
    {
        match parsed[i] {
            Some(d) => {
                days.push(d);
                assert(days@ =~= parsed_days(parsed@).take(i + 1));
            },
            None => {
                return Err(AppError::Validation { message: String::from_str("review_logs 日期格式非法") });
            },
        }
        i += 1;
    }
    assert(days@ =~= parsed_days(parsed@));
    let ghost ds = days@;
    if days[0] != today {
        return Ok(0);
    }
    let mut streak: i64 = 1;
    let mut expected: i32 = today;
    let mut k: usize = 1;
    let mut stopped = false;
    proof {
        lemma_streak_run_bounded(ds.skip(1), today as int);
        assert(ds.skip(1) =~= ds.drop_first());
    }
    while k < days.len() && !stopped
        invariant
            ds == days@,
            1 <= k <= ds.len(),
            ds.len() < i64::MAX,
            1 <= streak <= k,
            stopped ==> streak == streak_days_of(ds, today as int),
            !stopped ==> streak + streak_run(ds.skip(k as int), expected as int) == streak_days_of(ds, today as int),
        decreases ds.len() - k,
    {
        let d = days[k];
        let ghost rest = ds.skip(k as int);
        let ghost e0 = expected as int;
        assert(rest[0] == d);
        assert(rest.drop_first() =~= ds.skip(k + 1));
        if expected <= MIN_DATE_CE {
            assert(streak_run(rest, e0) == 0);
            stopped = true;
        } else {
            let previous = expected - 1;
            if d == previous {
                assert(streak_run(rest, e0) == 1 + streak_run(ds.skip(k + 1), e0 - 1));
                proof {
                    lemma_streak_run_bounded(ds.skip(k + 1), e0 - 1);
                }
                streak = streak + 1;
                expected = d;
            } else if d < previous {
                assert(streak_run(rest, e0) == 0);
                stopped = true;
            } else {
                assert(streak_run(rest, e0) == streak_run(ds.skip(k + 1), e0));
            }
        }
        k += 1;
    }
    proof {
        if !stopped {
            assert(ds.skip(k as int).len() == 0);
        }
    }
    Ok(streak)
}

/// The parsed dates of the review days.
pub open spec fn parsed_dates(days: Seq<String>) -> Seq<Option<i32>> {
    days.map_values(|s: String| ymd_day_number(s@))
}

/// The streak of consecutive review days ending today (`today` is the day count of the
/// current UTC date), from the dates ("YYYY-MM-DD") of the days with reviews, latest first.
pub fn calculate_streak_days(days: Vec<String>, today: i32) -> (r: Result<i64, AppError>)
    requires
        days@.len() < i64::MAX,
    ensures
        days@.len() == 0 ==> r == Ok::<i64, AppError>(0),
        days@.len() > 0 && (exists|i: int| 0 <= i < days@.len() && ymd_day_number((#[trigger] days@[i])@) is None) ==> (r matches Err(
            e,
        ) && e matches AppError::Validation { message } && message@ == "review_logs 日期格式非法"@),
        (forall|i: int| 0 <= i < days@.len() ==> ymd_day_number((#[trigger] days@[i])@) is Some) ==> r == Ok::<i64, AppError>(
            streak_days_of(parsed_days(parsed_dates(days@)), today as int) as i64,
        ),
        forall|i: int|
            0 <= i < days@.len() ==> (ymd_day_number((#[trigger] days@[i])@) matches Some(d) ==> MIN_DATE_CE <= d
                <= MAX_DATE_CE),
{
    let mut parsed: Vec<Option<i32>> = Vec::new();
    let mut i: usize = 0;
    while i < days.len()
        invariant
            i <= days@.len(),
            parsed@ == parsed_dates(days@).take(i as int),
            forall|j: int|
                0 <= j < i ==> (ymd_day_number((#[trigger] days@[j])@) matches Some(d) ==> MIN_DATE_CE <= d
                    <= MAX_DATE_CE),
        decreases days@.len() - i,
    {
        parsed.push(parse_ymd_day(days[i].as_str()));
        assert(parsed@ =~= parsed_dates(days@).take(i + 1));
        i += 1;
    }
    assert(parsed@ =~= parsed_dates(days@));
    proof {
        if exists|i: int| 0 <= i < days@.len() && ymd_day_number((#[trigger] days@[i])@) is None {
            let i = choose|i: int| 0 <= i < days@.len() && ymd_day_number((#[trigger] days@[i])@) is None;
            assert(parsed@[i] is None);
        }
        if forall|i: int| 0 <= i < days@.len() ==> ymd_day_number((#[trigger] days@[i])@) is Some {
            assert forall|i: int| 0 <= i < parsed@.len() implies (#[trigger] parsed@[i]) is Some by {
                assert(ymd_day_number(days@[i]@) is Some);
            }
        }
    }
    streak_from_parsed(&parsed, today)
}

/// The dashboard from its counts, the streak and the next due instant.
pub fn dashboard_data(due_today: i64, completed_today: i64, streak_days: i64, next_due_at: Option<Timestamp>) -> (r: ReviewDashboardData)
    ensures
        r.due_today == due_today,
        r.completed_today == completed_today,
        r.streak_days == streak_days,
        r.next_due_at == next_due_at,
{
    ReviewDashboardData { due_today, completed_today, streak_days, next_due_at }
}

/// The streak never exceeds the number of days listed.
pub proof fn law_streak_bounded(ds: Seq<i32>, today: int)
    ensures
        0 <= streak_days_of(ds, today) <= ds.len(),
{
    if ds.len() > 0 && ds[0] == today {
        lemma_streak_run_bounded(ds.drop_first(), today);
    }
}

/// Days listed as today, yesterday, the day before, and so on, make a streak of their
/// number.
pub proof fn law_streak_of_consecutive_days(ds: Seq<i32>, today: int)
    requires
        ds.len() > 0,
        today - ds.len() >= MIN_DATE_CE,
        forall|i: int| 0 <= i < ds.len() ==> #[trigger] ds[i] == today - i,
    ensures
        streak_days_of(ds, today) == ds.len(),
{
    lemma_consecutive_run(ds.drop_first(), today);
}

proof fn lemma_consecutive_run(ds: Seq<i32>, expected: int)
    requires
        expected - ds.len() >= MIN_DATE_CE,
        forall|i: int| 0 <= i < ds.len() ==> #[trigger] ds[i] == expected - 1 - i,
    ensures
        streak_run(ds, expected) == ds.len(),
    decreases ds.len(),
{
    if ds.len() > 0 {
        assert(ds[0] == expected - 1);
        let rest = ds.drop_first();
        assert forall|i: int| 0 <= i < rest.len() implies #[trigger] rest[i] == (expected - 1) - 1 - i by {
            assert(rest[i] == ds[i + 1]);
        }
        lemma_consecutive_run(rest, expected - 1);
    }
}

/// Over review days listed strictly latest first, each a date chrono can hold, the streak
/// is the length of the longest leading run of today, yesterday, the day before, and so on:
/// every day in it is that many days before today, and the next listed day breaks it.
pub proof fn law_streak_is_longest_leading_run(ds: Seq<i32>, today: int)
    requires
        forall|i: int, j: int| 0 <= i < j < ds.len() ==> ds[i] > ds[j],
        forall|i: int| 0 <= i < ds.len() ==> MIN_DATE_CE <= #[trigger] ds[i],
    ensures
        0 <= streak_days_of(ds, today) <= ds.len(),
        forall|i: int| 0 <= i < streak_days_of(ds, today) ==> #[trigger] ds[i] == today - i,
        streak_days_of(ds, today) < ds.len() ==> ds[streak_days_of(ds, today)] != today - streak_days_of(ds, today),
{
    if ds.len() > 0 && ds[0] == today {
        let rest = ds.drop_first();
        assert forall|i: int, j: int| 0 <= i < j < rest.len() implies rest[i] > rest[j] by {
            assert(rest[i] == ds[i + 1] && rest[j] == ds[j + 1]);
        }
        assert forall|i: int| 0 <= i < rest.len() implies MIN_DATE_CE <= #[trigger] rest[i] by {
            assert(rest[i] == ds[i + 1]);
        }
        if rest.len() > 0 {
            assert(rest[0] == ds[1]);
        }
        lemma_run_is_leading_run(rest, today);
        let r = streak_run(rest, today);
        assert forall|i: int| 0 <= i < 1 + r implies #[trigger] ds[i] == today - i by {
            if i > 0 {
                assert(ds[i] == rest[i - 1]);
            }
        }
        if 1 + r < ds.len() {
            assert(ds[1 + r] == rest[r]);
        }
    }
}

proof fn lemma_run_is_leading_run(ds: Seq<i32>, expected: int)
    requires
        forall|i: int, j: int| 0 <= i < j < ds.len() ==> ds[i] > ds[j],
        forall|i: int| 0 <= i < ds.len() ==> MIN_DATE_CE <= #[trigger] ds[i],
        ds.len() > 0 ==> ds[0] < expected,
    ensures
        0 <= streak_run(ds, expected) <= ds.len(),
        forall|i: int| 0 <= i < streak_run(ds, expected) ==> #[trigger] ds[i] == expected - 1 - i,
        streak_run(ds, expected) < ds.len() ==> ds[streak_run(ds, expected)] != expected - 1 - streak_run(
            ds,
            expected,
        ),
    decreases ds.len(),
{
    if ds.len() > 0 {
        assert(MIN_DATE_CE <= ds[0]);
        if ds[0] == expected - 1 {
            let rest = ds.drop_first();
            assert forall|i: int, j: int| 0 <= i < j < rest.len() implies rest[i] > rest[j] by {
                assert(rest[i] == ds[i + 1] && rest[j] == ds[j + 1]);
            }
            assert forall|i: int| 0 <= i < rest.len() implies MIN_DATE_CE <= #[trigger] rest[i] by {
                assert(rest[i] == ds[i + 1]);
            }
            if rest.len() > 0 {
                assert(rest[0] == ds[1]);
            }
            lemma_run_is_leading_run(rest, expected - 1);
            let r = streak_run(rest, expected - 1);
            assert forall|i: int| 0 <= i < 1 + r implies #[trigger] ds[i] == expected - 1 - i by {
                if i > 0 {
                    assert(ds[i] == rest[i - 1]);
                }
            }
            if 1 + r < ds.len() {
                assert(ds[1 + r] == rest[r]);
            }
        }
    }
}

/// The streak that `calculate_streak_days` gives for review dates listed strictly latest
/// first, each a date chrono can hold: the length of the longest leading run of dates that
/// are today, yesterday, the day before, and so on; the next listed date breaks it, and
/// the streak never exceeds the number of dates.
pub proof fn law_listed_days_streak(days: Seq<String>, today: i32)
    requires
        forall|i: int|
            0 <= i < days.len() ==> (ymd_day_number((#[trigger] days[i])@) matches Some(d) && MIN_DATE_CE <= d
                <= MAX_DATE_CE),
        forall|i: int, j: int|
            0 <= i < j < days.len() ==> parsed_days(parsed_dates(days))[i] > parsed_days(parsed_dates(days))[j],
    ensures
        0 <= streak_days_of(parsed_days(parsed_dates(days)), today as int) <= days.len(),
        forall|i: int|
            0 <= i < streak_days_of(parsed_days(parsed_dates(days)), today as int) ==> (ymd_day_number(
                (#[trigger] days[i])@,
            ) matches Some(d) && d == today - i),
        streak_days_of(parsed_days(parsed_dates(days)), today as int) < days.len() ==> (ymd_day_number(
            days[streak_days_of(parsed_days(parsed_dates(days)), today as int)]@,
        ) matches Some(d) && d != today - streak_days_of(parsed_days(parsed_dates(days)), today as int)),
{
    let ds = parsed_days(parsed_dates(days));
    assert forall|i: int| 0 <= i < ds.len() implies MIN_DATE_CE <= #[trigger] ds[i] && ymd_day_number(days[i]@)
        == Some(ds[i]) by {
        assert(ymd_day_number(days[i]@) is Some);
    }
    law_streak_is_longest_leading_run(ds, today as int);
    let n = streak_days_of(ds, today as int);
    assert forall|i: int| 0 <= i < n implies (ymd_day_number((#[trigger] days[i])@) matches Some(d) && d == today - i) by {
        assert(ds[i] == today - i);
        assert(ymd_day_number(days[i]@) == Some(ds[i]));
    }
    if n < days.len() {
        assert(ymd_day_number(days[n]@) == Some(ds[n]));
    }
}

/// Without a review today the streak is broken, whatever came before.
pub proof fn law_streak_needs_today(ds: Seq<i32>, today: int)
    requires
        ds.len() == 0 || ds[0] != today,
    ensures
        streak_days_of(ds, today) == 0,
{
}

/// Review listings always ask for between 1 and 100 reviews.
pub proof fn law_review_limit_in_range(limit: Option<i64>)
    ensures
        MIN_REVIEW_LIST_LIMIT <= review_limit_of(limit) <= MAX_REVIEW_LIST_LIMIT,
        limit is None ==> review_limit_of(limit) == DEFAULT_REVIEW_LIST_LIMIT,
{
}

} // verus!
