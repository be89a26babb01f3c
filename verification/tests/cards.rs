use chrono::{TimeZone, Utc};
use nevermind::db::dao::card_dao::{
    aggregate_keyword_buckets, card_keywords_contains_exact, keyword_search_terms, question_search_terms,
};
use nevermind::models::card::{parse_keywords_json, serialize_keywords, Card, GeneratedCard};
use nevermind::time::Timestamp;

fn at(y: i32, mo: u32, d: u32, h: u32) -> Timestamp {
    let dt = Utc.with_ymd_and_hms(y, mo, d, h, 0, 0).unwrap();
    Timestamp::new(dt.timestamp(), dt.timestamp_subsec_nanos())
}

fn now() -> Timestamp {
    let dt = Utc::now();
    Timestamp::new(dt.timestamp(), dt.timestamp_subsec_nanos())
}

fn make_card(keyword: &str, question: &str, keywords_json: &str) -> Card {
    Card {
        id: "id".into(),
        batch_id: None,
        keyword: keyword.into(),
        question: question.into(),
        keywords: keywords_json.into(),
        definition: "def".into(),
        explanation: "exp".into(),
        source_excerpt: None,
        status: "pending".into(),
        created_at: now(),
        updated_at: now(),
        next_review_at: None,
    }
}

#[test]
fn effective_question_fallbacks_to_template_when_empty() {
    let c = make_card("闭包", "", "[]");
    assert_eq!(c.effective_question(), "闭包是什么？");
}

#[test]
fn effective_question_uses_stored_when_present() {
    let c = make_card("闭包", "闭包是如何实现的？", "[]");
    assert_eq!(c.effective_question(), "闭包是如何实现的？");
}

#[test]
fn effective_keywords_fallbacks_to_single_keyword_when_empty() {
    let c = make_card("闭包", "", "[]");
    assert_eq!(c.effective_keywords(), vec!["闭包".to_string()]);
}

#[test]
fn effective_keywords_parses_json_array() {
    let c = make_card("闭包", "", r#"["闭包","作用域","词法环境"]"#);
    assert_eq!(
        c.effective_keywords(),
        vec!["闭包".to_string(), "作用域".to_string(), "词法环境".to_string()]
    );
}

#[test]
fn serialize_keywords_round_trips() {
    let kws = vec!["a".to_string(), "b".to_string(), "c".to_string()];
    let s = serialize_keywords(&kws);
    assert_eq!(parse_keywords_json(&s), kws);
}

#[test]
fn parse_keywords_json_tolerates_garbage() {
    assert!(parse_keywords_json("").is_empty());
    assert!(parse_keywords_json("not-json").is_empty());
    assert!(parse_keywords_json("[").is_empty());
}

#[test]
fn card_keywords_contains_exact_matches_case_insensitive() {
    let c = Card {
        id: "x".into(),
        batch_id: None,
        keyword: "Rust".into(),
        question: "".into(),
        keywords: r#"["Rust","Cargo"]"#.into(),
        definition: "".into(),
        explanation: "".into(),
        source_excerpt: None,
        status: "accepted".into(),
        created_at: now(),
        updated_at: now(),
        next_review_at: None,
    };
    assert!(card_keywords_contains_exact(&c, "rust"));
    assert!(card_keywords_contains_exact(&c, "cargo"));
    assert!(!card_keywords_contains_exact(&c, "python"));
}

#[test]
fn serialize_keywords_escapes_quotes() {
    let kws = vec!["a\"b".to_string(), "中文".to_string()];
    let s = serialize_keywords(&kws);
    assert!(s.starts_with('['));
    assert_eq!(parse_keywords_json(&s), kws);
}

#[test]
fn generated_card_from_stored_row_fills_question_and_keywords() {
    let mut c = make_card("闭包", "  ", "not-json");
    c.id = "c1".into();
    let g = GeneratedCard::from(c);
    assert_eq!(g.card_id, "c1");
    assert_eq!(g.question, "闭包是什么？");
    assert_eq!(g.keywords, vec!["闭包".to_string()]);
    assert!(g.related_terms.is_empty());
    assert!(g.review_history.is_empty());
}

fn bucket_card(id: &str, kws: &[&str], updated_hour: u32) -> Card {
    Card {
        id: id.into(),
        batch_id: Some("b".into()),
        keyword: kws[0].into(),
        question: format!("{}是什么？", kws[0]),
        keywords: serialize_keywords(&kws.iter().map(|k| k.to_string()).collect::<Vec<_>>()),
        definition: "def".into(),
        explanation: "exp".into(),
        source_excerpt: None,
        status: "accepted".into(),
        created_at: at(2026, 4, 18, updated_hour),
        updated_at: at(2026, 4, 18, updated_hour),
        next_review_at: None,
    }
}

#[test]
fn keyword_buckets_sort_by_count_then_recency() {
    let rows = vec![
        bucket_card("c1", &["闭包", "作用域"], 10),
        bucket_card("c2", &["闭包 ", "Rust"], 9),
        bucket_card("c3", &["rust"], 12),
        bucket_card("c4", &["动态规划", "  "], 11),
    ];
    let buckets = aggregate_keyword_buckets(&rows);
    let names: Vec<&str> = buckets.iter().map(|b| b.keyword.as_str()).collect();
    assert_eq!(names, vec!["Rust", "闭包", "动态规划", "作用域"]);
    assert_eq!(buckets[0].question_count, 2);
    assert_eq!(buckets[0].last_updated_at, at(2026, 4, 18, 12));
    assert_eq!(buckets[1].question_count, 2);
    assert_eq!(buckets[1].sample_questions.len(), 2);
    assert_eq!(buckets[1].sample_questions[0].card_id, "c1");
    assert_eq!(buckets[3].question_count, 1);
}

#[test]
fn keyword_buckets_keep_five_samples() {
    let rows: Vec<Card> = (0..7).map(|i| bucket_card(&format!("c{}", i), &["同一个"], 10)).collect();
    let buckets = aggregate_keyword_buckets(&rows);
    assert_eq!(buckets.len(), 1);
    assert_eq!(buckets[0].question_count, 7);
    assert_eq!(buckets[0].sample_questions.len(), 5);
}

#[test]
fn search_terms_escape_like_wildcards() {
    let t = keyword_search_terms("  50%_off\\ ").unwrap();
    assert_eq!(t.needle, "50%_off\\");
    assert_eq!(t.pattern, "%\"50\\%\\_off\\\\\"%");
    assert_eq!(t.lowered, "50%_off\\");
    assert!(keyword_search_terms("   ").is_none());
    let q = question_search_terms(" 是什么 ", 500).unwrap();
    assert_eq!(q.pattern, "%是什么%");
    assert_eq!(q.limit, 200);
    assert_eq!(question_search_terms("x", 0).unwrap().limit, 1);
    assert_eq!(question_search_terms("x", 50).unwrap().limit, 50);
    assert!(question_search_terms("", 50).is_none());
}

fn seeded(id: &str, keyword: &str, question: &str, kws: Vec<&str>, status: &str) -> Card {
    Card {
        id: id.into(),
        batch_id: Some("b1".into()),
        keyword: keyword.into(),
        question: question.into(),
        keywords: serialize_keywords(&kws.into_iter().map(String::from).collect::<Vec<_>>()),
        definition: "d".into(),
        explanation: "e".into(),
        source_excerpt: None,
        status: status.into(),
        created_at: at(2026, 4, 18, 10),
        updated_at: at(2026, 4, 18, 10),
        next_review_at: None,
    }
}

/// The seeded cards a listing sees: all but the rejected ones, or only the accepted ones.
fn visible(only_accepted: bool) -> Vec<Card> {
    vec![
        seeded("c1", "闭包", "什么是闭包？", vec!["闭包", "作用域", "词法环境"], "accepted"),
        seeded("c2", "闭包", "闭包和普通函数有什么区别？", vec!["闭包", "函数", "引用"], "accepted"),
        seeded("c3", "动态规划", "什么是动态规划？", vec!["动态规划", "最优子结构", "状态转移"], "pending"),
        seeded("c4", "废弃卡", "废弃卡是什么？", vec!["废弃卡"], "rejected"),
    ]
    .into_iter()
    .filter(|c| if only_accepted { c.status == "accepted" } else { c.status != "rejected" })
    .collect()
}

#[test]
fn list_keyword_buckets_aggregates_and_sorts() {
    let buckets = aggregate_keyword_buckets(&visible(false));
    assert_eq!(buckets[0].keyword, "闭包");
    assert_eq!(buckets[0].question_count, 2);
    assert!(!buckets.iter().any(|b| b.keyword == "废弃卡"));
}

#[test]
fn list_keyword_buckets_only_accepted_excludes_pending() {
    let buckets = aggregate_keyword_buckets(&visible(true));
    assert!(!buckets.iter().any(|b| b.keyword == "动态规划"));
}

#[test]
fn keyword_matching_is_exact_not_substring() {
    let rows = visible(false);
    let hits: Vec<&str> = rows.iter().filter(|c| card_keywords_contains_exact(c, "闭包")).map(|c| c.id.as_str()).collect();
    assert_eq!(hits, vec!["c1", "c2"]);
    assert!(!card_keywords_contains_exact(&rows[0], "闭"));
}
