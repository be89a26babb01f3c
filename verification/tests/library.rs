use chrono::Utc;
use nevermind::commands::library::{question_search_limit, search_by_keyword_result, search_by_question_result};
use nevermind::models::card::{serialize_keywords, Card};
use nevermind::time::Timestamp;

fn now() -> Timestamp {
    let dt = Utc::now();
    Timestamp::new(dt.timestamp(), dt.timestamp_subsec_nanos())
}

fn make(id: &str, kws: Vec<&str>, q: &str, status: &str) -> Card {
    Card {
        id: id.into(),
        batch_id: Some("b".into()),
        keyword: kws[0].into(),
        question: q.into(),
        keywords: serialize_keywords(&kws.iter().map(|k| k.to_string()).collect::<Vec<_>>()),
        definition: "def".into(),
        explanation: "exp".into(),
        source_excerpt: None,
        status: status.into(),
        created_at: now(),
        updated_at: now(),
        next_review_at: None,
    }
}

fn seeded() -> Vec<Card> {
    vec![
        make("c1", vec!["js", "async"], "async 是什么？", "accepted"),
        make("c2", vec!["jsonl", "纯文本"], "jsonl 是什么？", "accepted"),
        make("c3", vec!["闭包"], "闭包是什么？", "pending"),
    ]
}

#[test]
fn search_by_keyword_does_exact_match_not_substring() {
    let r = search_by_keyword_result("js", seeded());
    let ids: Vec<&str> = r.cards.iter().map(|c| c.card_id.as_str()).collect();
    assert_eq!(ids, vec!["c1"], "不应匹配到 c2 的 jsonl");
    assert_eq!(r.keyword, Some("js".to_string()));
    assert_eq!(r.query, None);
}

#[test]
fn search_by_question_fuzzy() {
    let r = search_by_question_result("是什么", seeded());
    assert_eq!(r.cards.len(), 3);
    assert_eq!(r.query, Some("是什么".to_string()));
}

#[test]
fn empty_inputs_return_empty_results() {
    let r = search_by_keyword_result("   ", seeded());
    assert!(r.cards.is_empty());
    assert_eq!(r.keyword, None);
    let r = search_by_question_result("", seeded());
    assert!(r.cards.is_empty());
}

#[test]
fn keyword_search_ignores_case_and_blanks() {
    let r = search_by_keyword_result("  ASYNC ", seeded());
    assert_eq!(r.cards.len(), 1);
    assert_eq!(r.keyword, Some("ASYNC".to_string()));
    assert_eq!(question_search_limit(None), 50);
    assert_eq!(question_search_limit(Some(3)), 3);
}

#[test]
fn list_keyword_buckets_via_service() {
    let buckets = nevermind::db::dao::card_dao::aggregate_keyword_buckets(&seeded());
    assert_eq!(buckets.len(), 5);
}
