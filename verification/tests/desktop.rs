use nevermind::commands::screenshot::ScreenshotBuffer;
use nevermind::commands::tray::{color_for_state, solid_rgba_pixels, title_for_state, tray_menu_action, TrayAction, TrayGenerationState};
use nevermind::harness_core::browser_moment::{build_browser_moment_event, capture_foreground_window_png};
use nevermind::harness_core::error::HarnessError;
use nevermind::harness_core::event::DesktopEvent;
use nevermind::harness_core::paths::{
    bgra_to_rgba, data_relative_parts, normalize_rel_path, relative_parts, snapshot_file_name, snapshot_prefix, PathPart,
};
use nevermind::harness_core::recording::RecordingState;

#[test]
fn screenshots_are_read_back_until_cleared() {
    let mut buf = ScreenshotBuffer::new();
    buf.store(0, vec![1, 2, 3]);
    buf.store(1, vec![9]);
    buf.store(0, vec![4]);
    assert_eq!(buf.captured(0).unwrap(), vec![4]);
    assert_eq!(buf.captured(1).unwrap(), vec![9]);
    assert_eq!(buf.captured(2).unwrap_err(), "No pre-captured image for monitor 2");
    buf.clear();
    assert!(buf.captured(0).is_err());
}

#[test]
fn tray_follows_generation_state() {
    assert_eq!(title_for_state(TrayGenerationState::Idle), None);
    assert_eq!(title_for_state(TrayGenerationState::Mixed), Some("生成中·有待预览"));
    assert_eq!(color_for_state(TrayGenerationState::Running), (59, 130, 246));
    let px = solid_rgba_pixels(1, 2, 3);
    assert_eq!(px.len(), 22 * 22 * 4);
    assert_eq!(&px[4..8], &[1, 2, 3, 255]);
    assert_eq!(tray_menu_action("nevermind-tray-quit"), Some(TrayAction::Quit));
    assert_eq!(tray_menu_action("nope"), None);
}

#[test]
fn recording_only_records_changes() {
    let mut st = RecordingState::new();
    assert!(st.foreground_changed("code.exe", Some("main.rs")));
    assert!(!st.foreground_changed("code.exe", Some("main.rs")));
    assert!(st.foreground_changed("code.exe", None));
    assert!(!st.clipboard_changed(5));
    assert!(!st.clipboard_changed(5));
    assert!(st.clipboard_changed(6));
}

#[test]
fn browser_moments_wait_for_the_quiet_gap() {
    let mut st = RecordingState::new();
    let t1 = "Rust 文档 - Google Chrome";
    let t2 = "另一页 - Google Chrome";
    let t3 = "第三页 - Google Chrome";
    assert_eq!(st.browser_moment_due("chrome.exe", Some(t1), 0), None);
    assert_eq!(st.browser_moment_due("chrome.exe", Some(t2), 1_000), Some("chrome_tab"));
    st.browser_moment_recorded(1_000);
    assert_eq!(st.browser_moment_due("chrome.exe", Some(t3), 5_000), None);
    assert_eq!(st.browser_moment_due("chrome.exe", Some(t1), 20_000), Some("chrome_tab"));
    assert_eq!(st.browser_moment_due("notepad.exe", Some("x"), 40_000), None);
    assert_eq!(st.browser_moment_due("chrome.exe", Some(t2), 50_000), None);
}

#[test]
fn relative_paths_stay_inside_the_data_directory() {
    let parts = vec![PathPart::CurDir, PathPart::Normal("snapshots".into()), PathPart::Normal("a.png".into())];
    assert_eq!(relative_parts("./snapshots/a.png", false, &parts).unwrap(), vec!["snapshots".to_string(), "a.png".to_string()]);
    assert_eq!(relative_parts("  ", false, &vec![]).unwrap_err(), HarnessError::InvalidPath("路径为空".into()));
    assert_eq!(relative_parts("/etc", true, &vec![]).unwrap_err(), HarnessError::InvalidPath("不允许绝对路径".into()));
    let up = vec![PathPart::Normal("a".into()), PathPart::ParentDir, PathPart::ParentDir];
    assert_eq!(relative_parts("a/../..", false, &up).unwrap_err(), HarnessError::InvalidPath("非法的相对路径".into()));
    assert_eq!(normalize_rel_path(&vec!["snapshots".into(), "2026-04-18".into(), "ls-1.png".into()]), "snapshots/2026-04-18/ls-1.png");
    assert_eq!(normalize_rel_path(&vec![]), "");
    assert_eq!(snapshot_file_name("ls", 1713456789012), "ls-1713456789012.png");
    assert_eq!(snapshot_file_name("bm", -5), "bm--5.png");
}

#[test]
fn pixels_swap_red_and_blue() {
    assert_eq!(bgra_to_rgba(&[1, 2, 3, 4, 5, 6, 7, 8, 9]), vec![3, 2, 1, 4, 7, 6, 5, 8]);
}

#[test]
fn browser_moment_events_carry_the_title_text() {
    let shot = capture_foreground_window_png("bm");
    assert_eq!(shot.clone().unwrap_err(), HarnessError::UnsupportedPlatform);
    assert_eq!(
        build_browser_moment_event("chrome_tab", "chrome.exe".into(), "t - Google Chrome".into(), shot).unwrap_err(),
        HarnessError::UnsupportedPlatform
    );
    let ev = build_browser_moment_event(
        "chrome_tab",
        "chrome.exe".into(),
        "Rust 所有权 - Google Chrome".into(),
        Ok(("snapshots/bm-1.png".into(), 10, 20)),
    )
    .unwrap();
    match &ev {
        DesktopEvent::BrowserMoment { page_title, image_rel, width_px, .. } => {
            assert_eq!(page_title, "Rust 所有权");
            assert_eq!(image_rel, "snapshots/bm-1.png");
            assert_eq!(*width_px, 10);
        }
        other => panic!("unexpected {:?}", other),
    }
    assert!(ev.recorded_at().secs > 0);
}

#[test]
fn snapshot_prefix_is_trimmed_or_cap() {
    assert_eq!(snapshot_prefix(" bm- "), "bm");
    assert_eq!(snapshot_prefix("fg--"), "fg");
    assert_eq!(snapshot_prefix("   "), "cap");
    assert_eq!(snapshot_prefix("--"), "cap");
}

#[test]
fn data_relative_parts_reads_the_platform_path() {
    assert_eq!(data_relative_parts(" snapshots/./a.png ").unwrap(), vec!["snapshots".to_string(), "a.png".to_string()]);
    assert_eq!(data_relative_parts("  ").unwrap_err(), HarnessError::InvalidPath("路径为空".into()));
    assert_eq!(data_relative_parts("../x").unwrap_err(), HarnessError::InvalidPath("非法的相对路径".into()));
    assert_eq!(data_relative_parts("/etc/passwd").unwrap_err(), HarnessError::InvalidPath("不允许绝对路径".into()));
}
