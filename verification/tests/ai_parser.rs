use nevermind::ai::parser::{
    complete_parsed_cards, extract_json_body, looks_like_question, normalize_keywords, ParsedCard,
};
use nevermind::utils::error::AppError;

/// The strings of a JSON array field, or none when the field is absent.
fn strings_of(v: &serde_json::Value, field: &str) -> Vec<String> {
    match v.get(field) {
        Some(serde_json::Value::Array(items)) => items
            .iter()
            .map(|i| i.as_str().expect("string item").to_string())
            .collect(),
        _ => Vec::new(),
    }
}

/// A string field, or empty when absent.
fn string_of(v: &serde_json::Value, field: &str) -> String {
    v.get(field).and_then(|s| s.as_str()).unwrap_or("").to_string()
}

/// Decodes a reply the way the application does: the JSON inside the fence, each card
/// read with the same defaults, then checked and completed.
fn parse_cards(raw: &str) -> Result<Vec<ParsedCard>, AppError> {
    let json = extract_json_body(raw);
    let value: serde_json::Value = serde_json::from_str(&json).map_err(|e| AppError::AiResponseInvalid {
        message: format!("JSON 解析失败: {}", e),
    })?;
    let cards = value
        .get("cards")
        .and_then(|c| c.as_array())
        .expect("cards array")
        .iter()
        .map(|c| ParsedCard {
            question: string_of(c, "question"),
            keywords: strings_of(c, "keywords"),
            keyword: string_of(c, "keyword"),
            definition: c.get("definition").and_then(|s| s.as_str()).expect("definition").to_string(),
            explanation: c.get("explanation").and_then(|s| s.as_str()).expect("explanation").to_string(),
            related_terms: strings_of(c, "relatedTerms"),
            scenarios: strings_of(c, "scenarios"),
            source_excerpt: c.get("sourceExcerpt").and_then(|s| s.as_str()).map(|s| s.to_string()),
        })
        .collect();
    complete_parsed_cards(cards)
}

#[test]
fn parses_v2_full_payload() {
    let raw = r#"{"cards":[{
            "question":"什么是闭包？",
            "keywords":["闭包","作用域","词法环境"],
            "definition":"D",
            "explanation":"E"
        }]}"#;
    let cards = parse_cards(raw).unwrap();
    assert_eq!(cards.len(), 1);
    assert_eq!(cards[0].question, "什么是闭包？");
    assert_eq!(cards[0].keywords.len(), 3);
    assert_eq!(cards[0].keyword, "闭包");
}

#[test]
fn parses_v1_legacy_payload_and_fills_question_keywords() {
    let raw = r#"{"cards":[{"keyword":"闭包","definition":"D","explanation":"E"}]}"#;
    let cards = parse_cards(raw).unwrap();
    assert_eq!(cards[0].question, "闭包是什么？");
    assert_eq!(cards[0].keywords, vec!["闭包".to_string()]);
}

#[test]
fn declarative_question_is_rewritten_to_xxx_shi_shenme() {
    let raw = r#"{"cards":[{
            "question":"闭包是一种特殊的函数",
            "keywords":["闭包"],
            "definition":"D","explanation":"E"
        }]}"#;
    let cards = parse_cards(raw).unwrap();
    assert_eq!(cards[0].question, "闭包是什么？");
}

#[test]
fn parses_json_with_markdown_fence() {
    let raw = "```json\n{\"cards\":[{\"keyword\":\"X\",\"definition\":\"Y\",\"explanation\":\"Z\"}]}\n```";
    let cards = parse_cards(raw).unwrap();
    assert_eq!(cards.len(), 1);
}

#[test]
fn rejects_empty_cards_array() {
    let raw = r#"{"cards":[]}"#;
    let err = parse_cards(raw).unwrap_err();
    assert_eq!(err.code(), "AI_RESPONSE_INVALID");
}

#[test]
fn rejects_missing_any_keyword_source() {
    let raw = r#"{"cards":[{"definition":"Y","explanation":"Z"}]}"#;
    let err = parse_cards(raw).unwrap_err();
    assert_eq!(err.code(), "AI_RESPONSE_INVALID");
}

#[test]
fn normalizes_duplicate_and_whitespace_keywords() {
    let raw = r#"{"cards":[{
            "question":"什么是 A？",
            "keywords":["A","  A  ","B",""],
            "definition":"D","explanation":"E"
        }]}"#;
    let cards = parse_cards(raw).unwrap();
    assert_eq!(cards[0].keywords, vec!["A".to_string(), "B".to_string()]);
}

#[test]
fn looks_like_question_covers_common_markers() {
    assert!(looks_like_question("这是什么？"));
    assert!(looks_like_question("What is closure"));
    assert!(looks_like_question("如何理解闭包"));
    assert!(!looks_like_question("闭包是一种特殊函数"));
}

#[test]
fn extract_json_body_strips_fences_and_blanks() {
    assert_eq!(extract_json_body("  {\"a\":1}  "), "{\"a\":1}");
    assert_eq!(extract_json_body("```json\n{\"a\":1}\n```"), "{\"a\":1}");
    assert_eq!(extract_json_body("```\n[1]\n```\n"), "[1]");
    assert_eq!(extract_json_body("{\"a\":\"```\"}"), "{\"a\":\"```\"}");
}

#[test]
fn completion_errors_name_the_card() {
    let good = ParsedCard {
        question: String::new(),
        keywords: vec![],
        keyword: "K".into(),
        definition: "D".into(),
        explanation: "E".into(),
        related_terms: vec![],
        scenarios: vec![],
        source_excerpt: None,
    };
    let mut no_def = good.clone();
    no_def.definition = "  ".into();
    let mut no_kw = good.clone();
    no_kw.keyword = " ".into();
    match complete_parsed_cards(vec![good.clone(), no_def]) {
        Err(AppError::AiResponseInvalid { message }) => assert_eq!(message, "第 2 张卡片缺少 definition"),
        other => panic!("unexpected {:?}", other),
    }
    match complete_parsed_cards(vec![good.clone(), good.clone(), no_kw]) {
        Err(AppError::AiResponseInvalid { message }) => {
            assert_eq!(message, "第 3 张卡片缺少关键词（keyword/keywords 均为空）")
        }
        other => panic!("unexpected {:?}", other),
    }
    match complete_parsed_cards(vec![]) {
        Err(AppError::AiResponseInvalid { message }) => assert_eq!(message, "模型未返回任何卡片"),
        other => panic!("unexpected {:?}", other),
    }
}

#[test]
fn completed_questions_always_read_as_questions() {
    let card = ParsedCard {
        question: "  为什么天空是蓝色的  ".into(),
        keywords: vec![" 天空 ".into()],
        keyword: String::new(),
        definition: "D".into(),
        explanation: "E".into(),
        related_terms: vec!["光".into()],
        scenarios: vec![],
        source_excerpt: Some("s".into()),
    };
    let out = complete_parsed_cards(vec![card]).unwrap();
    assert_eq!(out[0].question, "为什么天空是蓝色的");
    assert_eq!(out[0].keyword, "天空");
    assert_eq!(out[0].keywords, vec!["天空".to_string()]);
    assert_eq!(out[0].related_terms, vec!["光".to_string()]);
    assert!(looks_like_question(&out[0].question));
}

#[test]
fn normalize_keywords_is_idempotent() {
    let raw: Vec<String> = vec!["  a".into(), "b".into(), "a ".into(), "".into(), " c ".into(), "b".into()];
    let once = normalize_keywords(&raw);
    assert_eq!(once, vec!["a".to_string(), "b".to_string(), "c".to_string()]);
    assert_eq!(normalize_keywords(&once), once);
}

#[test]
fn english_markers_need_the_word_at_the_start() {
    assert!(looks_like_question("  HOW does it work"));
    assert!(!looks_like_question("Show me closures"));
    assert!(looks_like_question("Is it?"));
    assert!(!looks_like_question("   "));
}

#[test]
fn chinese_markers_count_only_at_the_start_or_end() {
    assert!(!looks_like_question("闭包和函数的区别在这里"));
    assert!(looks_like_question("闭包和函数的区别"));
    assert!(looks_like_question("哪种闭包更快"));
    assert!(looks_like_question("  这是闭包吗  "));
    assert!(!looks_like_question("我不知道为什么会这样。"));
}

#[test]
fn statement_with_a_question_word_inside_is_rewritten() {
    let card = ParsedCard {
        question: "闭包和函数的区别在这里".into(),
        keywords: vec!["闭包".into()],
        keyword: String::new(),
        definition: "D".into(),
        explanation: "E".into(),
        related_terms: vec![],
        scenarios: vec![],
        source_excerpt: None,
    };
    let out = complete_parsed_cards(vec![card]).unwrap();
    assert_eq!(out[0].question, "闭包是什么？");
}

#[test]
fn fenced_and_plain_bodies_agree() {
    let body = "{\"cards\":[]}";
    assert_eq!(extract_json_body(&format!("```json\n{}\n```", body)), body);
    assert_eq!(extract_json_body(&format!("```\n{}\n```", body)), body);
    assert_eq!(extract_json_body(body), body);
    assert_eq!(extract_json_body("```json\n\n```"), "");
}
