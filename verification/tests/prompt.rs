use nevermind::ai::prompt::build_prompt;

#[test]
fn prompt_embeds_source_text() {
    let p = build_prompt("艾宾浩斯遗忘曲线。", Some("遗忘曲线"), Some("心理学笔记"));
    assert!(p.contains("艾宾浩斯遗忘曲线"));
    assert!(p.contains("遗忘曲线"));
    assert!(p.contains("心理学笔记"));
}

#[test]
fn prompt_without_optional_fields() {
    let p = build_prompt("只给原文。", None, None);
    assert!(p.contains("只给原文"));
    assert!(!p.contains("来源标题"));
    assert!(!p.contains("请重点围绕关键词"));
}

#[test]
fn prompt_hints_are_trimmed_and_blank_ones_dropped() {
    let p = build_prompt("  原文  ", Some("  关键词 "), Some("   "));
    assert!(p.contains("请重点围绕关键词「关键词」提炼。\n"));
    assert!(!p.contains("来源标题"));
    assert!(p.ends_with("\n原始内容：\n原文\n"));
    assert!(p.starts_with("你是一名知识卡片生成助手。"));
}

#[test]
fn blank_hints_give_the_prompt_without_them() {
    assert_eq!(build_prompt("原文", Some("  "), Some("\t")), build_prompt("原文", None, None));
    let p = build_prompt("原文", None, None);
    assert!(!p.contains("请重点围绕关键词"));
    assert!(!p.contains("来源标题"));
    let q = build_prompt("原文", Some("闭包"), None);
    assert!(q.contains("请重点围绕关键词「闭包」提炼。"));
    assert!(!q.contains("来源标题"));
}
