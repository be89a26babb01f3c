use nevermind::harness_core::browser_moment::{
    browser_moment_text, extract_learning_content, extract_page_title_line, heuristic_keywords, is_bilibili_desktop_exe,
    is_bilibili_title, is_browser_app, is_chrome_exe, is_learning_focus_tracked_exe,
    should_record_learning_focus_moment, strip_bilibili_site_suffix, summary_zh, tokenize_title_hints,
};
use nevermind::text::is_whitespace;

#[test]
fn executables_are_recognised() {
    assert!(is_browser_app("Chrome.EXE"));
    assert!(is_browser_app("my-chromium-build.exe"));
    assert!(!is_browser_app("code.exe"));
    assert!(is_chrome_exe("CHROME.exe"));
    assert!(!is_chrome_exe("msedge.exe"));
    assert!(is_learning_focus_tracked_exe("chrome.exe"));
    assert!(is_bilibili_desktop_exe("BiliBili.exe"));
    assert!(is_bilibili_desktop_exe("哔哩哔哩.exe"));
    assert!(is_bilibili_title("Some video - BILIBILI"));
}

#[test]
fn page_titles_lose_the_browser_suffix() {
    assert_eq!(extract_page_title_line("  Rust 文档 - Google Chrome"), "Rust 文档");
    assert_eq!(extract_page_title_line("A - Microsoft\u{200b} Edge"), "A");
    assert_eq!(extract_page_title_line("plain title"), "plain title");
}

#[test]
fn bilibili_titles_lose_the_site_suffix() {
    assert_eq!(strip_bilibili_site_suffix("线性代数 第1讲 - 哔哩哔哩 (Official)"), "线性代数 第1讲");
    assert_eq!(strip_bilibili_site_suffix("视频标题_哔哩哔哩_bilibili - bilibili"), "视频标题_哔哩哔哩_bilibili");
    assert_eq!(strip_bilibili_site_suffix("标题 - UP主 - 哔哩哔哩"), "标题 - UP主");
}

#[test]
fn learning_content_follows_the_trigger() {
    assert_eq!(extract_learning_content("chrome_new_tab", "新标签页"), "空白新标签页");
    assert_eq!(extract_learning_content("chrome_tab", "Rust 所有权详解 | 某网站"), "Rust 所有权详解");
    assert_eq!(extract_learning_content("chrome_tab", "ab | c"), "ab | c");
    assert_eq!(extract_learning_content("chrome_tab", "   "), "");
}

#[test]
fn moments_are_triggered_by_title_changes() {
    assert_eq!(should_record_learning_focus_moment("x - 哔哩哔哩", None, "chrome.exe"), Some("bilibili_open"));
    assert_eq!(should_record_learning_focus_moment("y - 哔哩哔哩", Some("x - 哔哩哔哩"), "chrome.exe"), Some("bilibili_video"));
    assert_eq!(should_record_learning_focus_moment("y - 哔哩哔哩", Some("y - 哔哩哔哩"), "chrome.exe"), None);
    assert_eq!(should_record_learning_focus_moment("新标签页 - Google Chrome", Some("a"), "chrome.exe"), Some("chrome_new_tab"));
    assert_eq!(should_record_learning_focus_moment("b - Google Chrome", None, "chrome.exe"), None);
    assert_eq!(should_record_learning_focus_moment("b - Google Chrome", Some("a"), "msedge.exe"), None);
}

#[test]
fn keywords_and_summaries() {
    assert_eq!(summary_zh("chrome_new_tab", "x"), "Chrome：空白新标签页");
    assert_eq!(summary_zh("bilibili_open", "线代"), "进入哔哩哔哩：线代");
    let long: String = "字".repeat(81);
    assert_eq!(summary_zh("chrome_tab", &long), format!("Chrome：{}…", "字".repeat(80)));
    assert_eq!(tokenize_title_hints("【Rust】所有权 与 借用"), vec!["Rust".to_string(), "所有权".to_string(), "借用".to_string()]);
    let kws = heuristic_keywords("chrome_tab", "Rust 所有权");
    assert_eq!(kws, vec!["Chrome".to_string(), "网页".to_string(), "Rust".to_string(), "所有权".to_string()]);
    let t = browser_moment_text("chrome_tab", "Rust 所有权 - Google Chrome");
    assert_eq!(t.page_title, "Rust 所有权");
    assert_eq!(t.learning_content, "Rust 所有权");
    assert_eq!(t.summary, "Chrome：Rust 所有权");
}

#[test]
fn white_space_matches_char_is_whitespace() {
    for u in 0u32..=0x10FFFF {
        if let Some(c) = char::from_u32(u) {
            assert_eq!(is_whitespace(c), c.is_whitespace(), "{:x}", u);
        }
    }
}

#[test]
fn seed_words_lead_the_keywords() {
    let b = heuristic_keywords("bilibili_video", "Rust 所有权 讲解");
    assert_eq!(&b[..2], &["哔哩哔哩".to_string(), "视频学习".to_string()]);
    let n = heuristic_keywords("chrome_new_tab", "");
    assert_eq!(&n[..2], &["Chrome".to_string(), "新标签".to_string()]);
    let o = heuristic_keywords("foreground", "Rust 所有权");
    assert_eq!(o[0], "Chrome");
}
