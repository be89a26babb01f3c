use nevermind::ai::ark_client::{
    build_messages, first_reply_content, http_status_error, request_error, truncate, MessageContent, MessagePart,
};
use nevermind::ai::client::{ChatRequest, ImageInput, MockLlmClient};
use nevermind::ai::config::{chat_completions_url, env_u64, non_empty_setting, normalize_api_base, timeout_for};
use nevermind::ai::parser::{complete_parsed_cards, extract_json_body};
use nevermind::utils::error::AppError;

#[test]
fn chat_completions_url_joins_correctly() {
    assert_eq!(chat_completions_url("https://example.com/api/v3"), "https://example.com/api/v3/chat/completions");
}

#[test]
fn timeout_for_picks_vision_when_images_present() {
    assert_eq!(timeout_for(30_000, 120_000, false), 30_000);
    assert_eq!(timeout_for(30_000, 120_000, true), 120_000);
}

#[test]
fn api_base_loses_trailing_slashes() {
    assert_eq!(normalize_api_base("https://example.com/api/v3///"), "https://example.com/api/v3");
    assert_eq!(normalize_api_base("https://example.com"), "https://example.com");
}

#[test]
fn environment_numbers_are_trimmed_and_parsed() {
    assert_eq!(env_u64(Some(" 1500 ".into())), Some(1500));
    assert_eq!(env_u64(Some("+7".into())), Some(7));
    assert_eq!(env_u64(Some("-7".into())), None);
    assert_eq!(env_u64(Some("12ms".into())), None);
    assert_eq!(env_u64(Some("18446744073709551616".into())), None);
    assert_eq!(env_u64(Some("   ".into())), None);
    assert_eq!(env_u64(None), None);
    assert_eq!(non_empty_setting(Some("  m  ".into())), Some("m".to_string()));
    assert_eq!(non_empty_setting(Some(" ".into())), None);
}

#[test]
fn truncate_marks_cuts() {
    assert_eq!(truncate("abc", 3), "abc");
    assert_eq!(truncate("abcd", 3), "abc...");
    assert_eq!(truncate("中文内容", 2), "中文...");
}

#[test]
fn replies_need_a_non_blank_first_choice() {
    assert_eq!(first_reply_content(vec!["x".into(), "".into()]).unwrap(), "x");
    assert_eq!(first_reply_content(vec![" ".into(), "y".into()]).unwrap_err().code(), "AI_RESPONSE_INVALID");
    assert_eq!(first_reply_content(vec![]).unwrap_err().code(), "AI_RESPONSE_INVALID");
}

#[test]
fn ark_errors_carry_their_details() {
    match http_status_error("500 Internal Server Error", &"e".repeat(600)) {
        AppError::AiUnavailable { message } => {
            assert!(message.starts_with("Ark 返回 HTTP 500 Internal Server Error: eee"));
            assert!(message.ends_with("e..."));
            assert_eq!(message.chars().count(), "Ark 返回 HTTP 500 Internal Server Error: ".chars().count() + 503);
        }
        other => panic!("unexpected {:?}", other),
    }
    assert_eq!(request_error(true, "t").code(), "AI_TIMEOUT");
    assert_eq!(request_error(false, "down").message(), "ai unavailable: 请求方舟失败: down");
}

#[test]
fn mock_reply_holds_one_complete_card() {
    let raw = MockLlmClient.complete("anything").unwrap();
    let json = extract_json_body(&raw);
    let v: serde_json::Value = serde_json::from_str(&json).unwrap();
    let cards = v["cards"].as_array().unwrap();
    assert_eq!(cards.len(), 1);
    assert_eq!(cards[0]["keyword"], "示例关键词");
    let card = nevermind::ai::parser::ParsedCard {
        question: String::new(),
        keywords: vec![],
        keyword: cards[0]["keyword"].as_str().unwrap().to_string(),
        definition: cards[0]["definition"].as_str().unwrap().to_string(),
        explanation: cards[0]["explanation"].as_str().unwrap().to_string(),
        related_terms: vec![],
        scenarios: vec![],
        source_excerpt: None,
    };
    let out = complete_parsed_cards(vec![card]).unwrap();
    assert_eq!(out[0].question, "示例关键词是什么？");
}

#[test]
fn build_messages_text_only_uses_string_content() {
    let req = ChatRequest::from_text("hello");
    let msgs = build_messages(&req);
    assert_eq!(msgs[0].role, "user");
    assert!(matches!(&msgs[0].content, MessageContent::Text(t) if t == "hello"));
}

#[test]
fn build_messages_with_images_uses_parts_array() {
    let req = ChatRequest::from_text("描述这张图").with_images(vec![ImageInput::new("https://example.com/a.png")]);
    let msgs = build_messages(&req);
    let parts = match &msgs[0].content {
        MessageContent::Parts(p) => p,
        MessageContent::Text(_) => panic!("有图片时 content 必须是数组"),
    };
    assert_eq!(parts.len(), 2);
    assert!(matches!(&parts[0], MessagePart::Text(t) if t == "描述这张图"));
    assert!(matches!(&parts[1], MessagePart::ImageUrl(u) if u == "https://example.com/a.png"));
}

#[test]
fn build_messages_empty_text_with_image_skips_text_part() {
    let req = ChatRequest::default().with_images(vec![ImageInput::new("https://example.com/b.png")]);
    let msgs = build_messages(&req);
    let parts = match &msgs[0].content {
        MessageContent::Parts(p) => p,
        MessageContent::Text(_) => panic!("content must be parts"),
    };
    assert_eq!(parts.len(), 1, "无文字指令时只有一个 image_url part");
    assert!(matches!(&parts[0], MessagePart::ImageUrl(_)));
}

#[test]
fn build_messages_keeps_image_order() {
    let req = ChatRequest::from_text("x")
        .with_images(vec![ImageInput::new("a"), ImageInput::new("b"), ImageInput::new("c")]);
    let msgs = build_messages(&req);
    assert_eq!(msgs.len(), 1);
    match &msgs[0].content {
        MessageContent::Parts(p) => {
            assert_eq!(p.len(), 4);
            assert!(matches!(&p[1], MessagePart::ImageUrl(u) if u == "a"));
            assert!(matches!(&p[3], MessagePart::ImageUrl(u) if u == "c"));
        }
        MessageContent::Text(_) => panic!("content must be parts"),
    }
}
