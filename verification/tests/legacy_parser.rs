use nevermind::nevermind::ai::parser::{check_parsed_cards, extract_json_body, ParsedCard};
use nevermind::nevermind::utils::error::AppError;

fn strings_of(v: &serde_json::Value, field: &str) -> Vec<String> {
    match v.get(field) {
        Some(serde_json::Value::Array(items)) => items
            .iter()
            .map(|i| i.as_str().expect("string item").to_string())
            .collect(),
        _ => Vec::new(),
    }
}

fn required(v: &serde_json::Value, field: &str) -> String {
    v.get(field).and_then(|s| s.as_str()).expect("required field").to_string()
}

/// Decodes a reply of the first form the way the application does.
fn parse_cards(raw: &str) -> Result<Vec<ParsedCard>, AppError> {
    let json = extract_json_body(raw);
    let value: serde_json::Value = serde_json::from_str(&json).map_err(|e| AppError::AiResponseInvalid {
        message: format!("JSON 解析失败: {}", e),
    })?;
    let cards = value
        .get("cards")
        .and_then(|c| c.as_array())
        .expect("cards array")
        .iter()
        .map(|c| ParsedCard {
            keyword: required(c, "keyword"),
            definition: required(c, "definition"),
            explanation: required(c, "explanation"),
            related_terms: strings_of(c, "relatedTerms"),
            scenarios: strings_of(c, "scenarios"),
            source_excerpt: c.get("sourceExcerpt").and_then(|s| s.as_str()).map(|s| s.to_string()),
        })
        .collect();
    check_parsed_cards(cards)
}

#[test]
fn parses_plain_json() {
    let raw = r#"{"cards":[{"keyword":"X","definition":"Y","explanation":"Z"}]}"#;
    let cards = parse_cards(raw).unwrap();
    assert_eq!(cards.len(), 1);
    assert_eq!(cards[0].keyword, "X");
}

#[test]
fn parser_parses_json_with_markdown_fence() {
    let raw = "```json\n{\"cards\":[{\"keyword\":\"X\",\"definition\":\"Y\",\"explanation\":\"Z\"}]}\n```";
    let cards = parse_cards(raw).unwrap();
    assert_eq!(cards.len(), 1);
}

#[test]
fn fills_optional_fields_with_defaults() {
    let raw = r#"{"cards":[{"keyword":"X","definition":"Y","explanation":"Z"}]}"#;
    let cards = parse_cards(raw).unwrap();
    assert!(cards[0].related_terms.is_empty());
    assert!(cards[0].scenarios.is_empty());
    assert!(cards[0].source_excerpt.is_none());
}

#[test]
fn parser_rejects_empty_cards_array() {
    let raw = r#"{"cards":[]}"#;
    let err = parse_cards(raw).unwrap_err();
    assert_eq!(err.code(), "AI_RESPONSE_INVALID");
}

#[test]
fn rejects_missing_required_fields() {
    let raw = r#"{"cards":[{"keyword":"","definition":"Y","explanation":"Z"}]}"#;
    let err = parse_cards(raw).unwrap_err();
    assert_eq!(err.code(), "AI_RESPONSE_INVALID");
}

#[test]
fn legacy_check_names_the_incomplete_card() {
    let ok = ParsedCard {
        keyword: "K".into(),
        definition: "D".into(),
        explanation: "E".into(),
        related_terms: vec![],
        scenarios: vec![],
        source_excerpt: None,
    };
    let mut bad = ok.clone();
    bad.definition = " \t".into();
    let err = check_parsed_cards(vec![ok.clone(), ok.clone(), bad]).unwrap_err();
    match err {
        AppError::AiResponseInvalid { message } => assert_eq!(message, "第 3 张卡片缺少 keyword 或 definition"),
        other => panic!("unexpected {:?}", other),
    }
    assert_eq!(check_parsed_cards(vec![ok.clone()]).unwrap(), vec![ok]);
}
