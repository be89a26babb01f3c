use chrono::{TimeZone, Utc};
use nevermind::ai::parser::ParsedCard;
use nevermind::commands::generate::{
    first_due_at, generated_batch_of, initial_schedules, new_cards_of, reviewed_result_of, status_update_of,
    validate_generate_input, validate_review_input, GenerateCardsInput, ReviewGeneratedCardsInput,
};
use nevermind::models::card::Card;
use nevermind::time::Timestamp;
use nevermind::utils::error::AppError;

fn at(y: i32, mo: u32, d: u32, h: u32) -> Timestamp {
    let dt = Utc.with_ymd_and_hms(y, mo, d, h, 0, 0).unwrap();
    Timestamp::new(dt.timestamp(), dt.timestamp_subsec_nanos())
}

fn sample_input() -> GenerateCardsInput {
    GenerateCardsInput {
        source_text: "艾宾浩斯遗忘曲线描述了记忆随时间衰减的规律。".into(),
        selected_keyword: Some("遗忘曲线".into()),
        context_title: None,
        source_type: "manual".into(),
        model_profile_id: None,
    }
}

#[test]
fn validate_generate_input_rejects_empty_text() {
    let mut input = sample_input();
    input.source_text = "   ".into();
    let err = validate_generate_input(&input).unwrap_err();
    assert_eq!(err.code(), "INVALID_INPUT");
}

#[test]
fn validate_generate_input_rejects_unknown_source_type() {
    let mut input = sample_input();
    input.source_type = "weird".into();
    let err = validate_generate_input(&input).unwrap_err();
    assert_eq!(err.code(), "INVALID_INPUT");
}

#[test]
fn validate_review_input_rejects_overlap() {
    let err = validate_review_input(&ReviewGeneratedCardsInput {
        batch_id: "b".into(),
        accept_card_ids: vec!["x".into()],
        reject_card_ids: vec!["x".into()],
    })
    .unwrap_err();
    assert_eq!(err.code(), "INVALID_REVIEW_OPERATION");
}

#[test]
fn source_text_length_is_counted_in_characters() {
    let mut input = sample_input();
    input.source_text = format!("  {}  ", "字".repeat(5000));
    assert!(validate_generate_input(&input).is_ok());
    input.source_text = "字".repeat(5001);
    match validate_generate_input(&input) {
        Err(AppError::Validation { message }) => assert_eq!(message, "sourceText 超过 5000 字符"),
        other => panic!("unexpected {:?}", other),
    }
    input.source_text = "ok".into();
    input.source_type = "weird".into();
    match validate_generate_input(&input) {
        Err(AppError::Validation { message }) => assert_eq!(message, "sourceType 非法: weird"),
        other => panic!("unexpected {:?}", other),
    }
    assert!(validate_review_input(&ReviewGeneratedCardsInput {
        batch_id: "b".into(),
        accept_card_ids: vec!["x".into(), "y".into()],
        reject_card_ids: vec!["z".into()],
    })
    .is_ok());
}

fn parsed(keyword: &str) -> ParsedCard {
    ParsedCard {
        question: format!("{}是什么？", keyword),
        keywords: vec![keyword.to_string()],
        keyword: keyword.to_string(),
        definition: "D".into(),
        explanation: "E".into(),
        related_terms: vec!["R".into()],
        scenarios: vec!["S".into()],
        source_excerpt: None,
    }
}

#[test]
fn generated_batch_is_pending_and_first_due_a_day_later() {
    let now = at(2026, 4, 18, 10);
    let due = first_due_at(now);
    assert_eq!(due, at(2026, 4, 19, 10));
    let ps = vec![parsed("a"), parsed("b")];
    let batch = "batch-1".to_string();
    let cards = new_cards_of(&ps, &batch, vec!["c1".into(), "c2".into()], due);
    assert_eq!(cards[1].id, "c2");
    assert_eq!(cards[1].status, "pending");
    assert_eq!(cards[1].batch_id, Some("batch-1".to_string()));
    assert_eq!(cards[1].next_review_at, Some(due));
    let schedules = initial_schedules(&cards, vec!["s1".into(), "s2".into()], due);
    assert_eq!(schedules[0].card_id, "c1");
    assert_eq!(schedules[0].review_step, 1);
    assert_eq!(schedules[0].status, "pending");
    let result = generated_batch_of(batch.clone(), cards, ps, now);
    assert_eq!(result.batch_id, "batch-1");
    assert_eq!(result.cards[0].related_terms, vec!["R".to_string()]);
    assert_eq!(result.cards[0].created_at, now);
    assert!(result.cards[0].review_history.is_empty());
}

fn stored(status: &str) -> Card {
    Card {
        id: "c".into(),
        batch_id: Some("b".into()),
        keyword: "k".into(),
        question: "".into(),
        keywords: "[]".into(),
        definition: "".into(),
        explanation: "".into(),
        source_excerpt: None,
        status: status.into(),
        created_at: at(2026, 4, 18, 10),
        updated_at: at(2026, 4, 18, 10),
        next_review_at: None,
    }
}

#[test]
fn reviewed_counts_by_status() {
    let cards = vec![stored("accepted"), stored("pending"), stored("rejected"), stored("accepted"), stored("odd")];
    let r = reviewed_result_of("b".into(), &cards);
    assert_eq!((r.accepted_count, r.rejected_count, r.pending_count), (2, 1, 2));
    assert_eq!(r.accepted_count + r.rejected_count + r.pending_count, cards.len() as i64);
    let u = status_update_of(&ReviewGeneratedCardsInput {
        batch_id: "b".into(),
        accept_card_ids: vec!["a".into()],
        reject_card_ids: vec!["r".into()],
    });
    assert_eq!(u.accepted_ids, vec!["a".to_string()]);
    assert_eq!(u.rejected_ids, vec!["r".to_string()]);
}
