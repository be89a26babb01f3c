use nevermind::commands::settings::{
    chat_completions_url, model_profile_to_store, screenshot_shortcut_of, normalize_endpoint, probe_outcome, settings_after_first_profile,
    shown_settings, validate_review_reminder_time, validate_settings_input, SaveModelProfileInput,
    StorageSettingsData, UpdateSettingsInput,
};
use nevermind::models::settings::{AppSettings, ModelProfile};
use nevermind::time::Timestamp;
use nevermind::utils::error::AppError;

#[test]
fn invalid_review_time_is_rejected() {
    let err = validate_review_reminder_time("25:61").unwrap_err();
    assert_eq!(err.code(), "INVALID_TIME_FORMAT");
}

#[test]
fn valid_review_times_are_accepted() {
    assert!(validate_review_reminder_time("09:00").is_ok());
    assert!(validate_review_reminder_time("23:59").is_ok());
    assert!(validate_review_reminder_time("9am").is_err());
}

fn input(theme: &str, language: &str, time: &str, dir: Option<&str>) -> UpdateSettingsInput {
    UpdateSettingsInput {
        theme: theme.into(),
        language: language.into(),
        notification_enabled: true,
        review_reminder_enabled: false,
        review_reminder_time: time.into(),
        storage: StorageSettingsData { export_directory: dir.map(String::from) },
    }
}

#[test]
fn settings_checks_report_the_first_problem() {
    assert!(validate_settings_input(&input("dark", "en-US", "08:30", Some("/tmp/nevermind"))).is_ok());
    assert_eq!(validate_settings_input(&input("blue", "xx", "99", None)).unwrap_err().message(), "invalid settings: theme 非法: blue");
    assert_eq!(validate_settings_input(&input("light", "fr-FR", "99", None)).unwrap_err().code(), "INVALID_SETTINGS");
    assert_eq!(validate_settings_input(&input("light", "zh-CN", "99", None)).unwrap_err().code(), "INVALID_TIME_FORMAT");
    assert_eq!(validate_settings_input(&input("system", "zh-CN", "09:00", Some("relative/dir"))).unwrap_err().code(), "INVALID_PATH");
}

#[test]
fn endpoints_are_checked_and_normalized() {
    assert_eq!(normalize_endpoint("  https://api.example.com/v1//  ").unwrap(), "https://api.example.com/v1");
    match normalize_endpoint("ftp://x.example") {
        Err(AppError::InvalidSettings { message }) => assert_eq!(message, "endpoint 必须使用 http/https: ftp://x.example"),
        other => panic!("unexpected {:?}", other),
    }
    match normalize_endpoint("not a url") {
        Err(AppError::InvalidSettings { message }) => assert_eq!(message, "endpoint 非法: not a url"),
        other => panic!("unexpected {:?}", other),
    }
    assert_eq!(
        chat_completions_url("qwen", "https://api.example.com/").unwrap(),
        "https://api.example.com/chat/completions"
    );
    assert_eq!(
        chat_completions_url("custom", "https://h.example/v1/chat/completions").unwrap(),
        "https://h.example/v1/chat/completions"
    );
    assert_eq!(chat_completions_url("other", "https://h.example").unwrap_err().code(), "INVALID_SETTINGS");
}

fn profile_input(id: Option<&str>) -> SaveModelProfileInput {
    SaveModelProfileInput {
        profile_id: id.map(String::from),
        name: "Qwen Default".into(),
        provider: "qwen".into(),
        endpoint: "https://api.example.com".into(),
        api_key: "secret".into(),
        model: Some("demo-model".into()),
        timeout_ms: 30000,
    }
}

fn stored_profile(id: &str, is_default: bool) -> ModelProfile {
    ModelProfile {
        id: id.into(),
        name: "n".into(),
        provider: "qwen".into(),
        endpoint: "https://api.example.com".into(),
        model: None,
        timeout_ms: 1000,
        api_key_secret_ref: None,
        is_default,
        created_at: Timestamp::new(0, 0),
        updated_at: Timestamp::new(0, 0),
    }
}

#[test]
fn save_first_model_profile_sets_default_profile_id() {
    let save = model_profile_to_store(profile_input(None), &vec![], "fresh-id".into()).unwrap();
    assert!(save.is_first_profile);
    assert!(save.profile.is_default);
    assert_eq!(save.profile.id, "fresh-id");
    assert_eq!(save.profile.api_key_secret_ref, Some("secret".to_string()));
    let settings = settings_after_first_profile(None, save.profile.id.clone());
    assert_eq!(settings.default_model_profile_id, Some("fresh-id".to_string()));
    assert_eq!(settings.theme, "system");
    assert_eq!(settings.language, "zh-CN");
    assert_eq!(settings.review_reminder_time, "09:00");
}

#[test]
fn saving_keeps_the_default_flag_of_an_existing_profile() {
    let existing = vec![stored_profile("a", false), stored_profile("b", true)];
    let save = model_profile_to_store(profile_input(Some("b")), &existing, "fresh".into()).unwrap();
    assert!(save.profile.is_default);
    assert!(!save.is_first_profile);
    let save = model_profile_to_store(profile_input(None), &existing, "fresh".into()).unwrap();
    assert!(!save.profile.is_default);
    let mut bad = profile_input(None);
    bad.timeout_ms = 0;
    assert_eq!(model_profile_to_store(bad, &existing, "f".into()).unwrap_err().message(), "invalid settings: timeoutMs 必须大于 0");
}

#[test]
fn get_settings_returns_defaults_when_table_is_empty() {
    let s = shown_settings(None);
    assert_eq!(s.theme, "system");
    assert_eq!(s.language, "zh-CN");
    assert!(s.notification_enabled);
    assert!(s.review_reminder_enabled);
    assert_eq!(s.review_reminder_time, "09:00");
}

#[test]
fn probe_statuses_are_read() {
    assert_eq!(probe_outcome(401, 5).unwrap_err().code(), "MODEL_AUTH_FAILED");
    assert_eq!(probe_outcome(403, 5).unwrap_err().code(), "MODEL_AUTH_FAILED");
    let ok = probe_outcome(200, 42).unwrap();
    assert!(ok.reachable);
    assert_eq!(ok.latency_ms, 42);
    match probe_outcome(503, 1) {
        Err(AppError::ModelConnectionFailed { message }) => assert_eq!(message, "模型返回 HTTP 503"),
        other => panic!("unexpected {:?}", other),
    }
}

#[test]
fn screenshot_shortcut_is_stored_or_default() {
    assert_eq!(screenshot_shortcut_of(None), "ctrl+shift+a");
    let stored = AppSettings {
        id: 1,
        theme: "dark".into(),
        language: "zh-CN".into(),
        notification_enabled: true,
        review_reminder_enabled: false,
        review_reminder_time: "20:00".into(),
        default_model_profile_id: None,
        export_directory: None,
        screenshot_shortcut: "alt+s".into(),
        updated_at: Timestamp { secs: 0, nanos: 0 },
    };
    assert_eq!(screenshot_shortcut_of(Some(stored)), "alt+s");
}
