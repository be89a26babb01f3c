//! Settings and model profiles: the checks on what the user enters, the defaults, and
//! what is stored.

use vstd::prelude::*;

use crate::harness_core::paths::path_is_absolute;
use crate::models::settings::{AppSettings, ModelProfile, UpsertModelProfile, UpsertSettings};
use crate::text::{
    chars_of, ends_with_chars, has_suffix, opt_chars, str_is_one_of, string_from_chars, strip_end,
    trim, trim_end_char, trimmed_chars_of,
};
use crate::time::Timestamp;
use crate::utils::error::AppError;

verus! {

// ---------------------------------------------------------------------------
// Shapes
// ---------------------------------------------------------------------------

/// A successful command's reply.
#[derive(Debug, Clone, PartialEq, Eq)]
pub struct CommandResponse<T> {
    pub success: bool,
    pub data: T,
}

impl<T> CommandResponse<T> {
    /// A successful reply carrying `data`.
    pub fn ok(data: T) -> (r: Self)
        ensures
            r.success,
            r.data == data,
    {
        CommandResponse { success: true, data }
    }
}

/// Where exports go.
#[derive(Debug, Clone, PartialEq, Eq)]
pub struct StorageSettingsData {
    pub export_directory: Option<String>,
}

/// The settings as the front end sees them.
#[derive(Debug, Clone, PartialEq, Eq)]
pub struct AppSettingsData {
    pub theme: String,
    pub language: String,
    pub notification_enabled: bool,
    pub review_reminder_enabled: bool,
    pub review_reminder_time: String,
    pub default_model_profile_id: Option<String>,
    pub storage: StorageSettingsData,
}

/// New settings entered by the user.
#[derive(Debug, Clone, PartialEq, Eq)]
pub struct UpdateSettingsInput {
    pub theme: String,
    pub language: String,
    pub notification_enabled: bool,
    pub review_reminder_enabled: bool,
    pub review_reminder_time: String,
    pub storage: StorageSettingsData,
}

/// When the settings were saved.
#[derive(Debug, Clone, PartialEq, Eq)]
pub struct UpdateSettingsData {
    pub updated_at: Timestamp,
}

/// A model profile as listed.
#[derive(Debug, Clone, PartialEq, Eq)]
pub struct ModelProfileItem {
    pub profile_id: String,
    pub name: String,
    pub provider: String,
    pub endpoint: String,
    pub is_default: bool,
    pub is_available: bool,
}

/// The listed model profiles.
#[derive(Debug, Clone, PartialEq, Eq)]
pub struct ListModelProfilesData {
    pub items: Vec<ModelProfileItem>,
}

/// A model profile entered by the user; without an id it is a new one.
#[derive(Debug, Clone, PartialEq, Eq)]
pub struct SaveModelProfileInput {
    pub profile_id: Option<String>,
    pub name: String,
    pub provider: String,
    pub endpoint: String,
    pub api_key: String,
    pub model: Option<String>,
    pub timeout_ms: i64,
}

/// The saved profile's id and when it was saved.
#[derive(Debug, Clone, PartialEq, Eq)]
pub struct SaveModelProfileData {
    pub profile_id: String,
    pub updated_at: Timestamp,
}

/// A model profile to try out.
#[derive(Debug, Clone, PartialEq, Eq)]
pub struct TestModelProfileInput {
    pub profile_id: Option<String>,
    pub provider: String,
    pub endpoint: String,
    pub api_key: String,
    pub model: Option<String>,
    pub timeout_ms: i64,
}

/// How a trial of a model profile went.
#[derive(Debug, Clone, PartialEq, Eq)]
pub struct TestModelProfileData {
    pub reachable: bool,
    pub latency_ms: u128,
}

/// How many rows clearing the library removed.
#[derive(Debug, Clone, PartialEq, Eq)]
pub struct ClearLibraryData {
    pub deleted_cards: i64,
    pub deleted_batches: i64,
    pub deleted_review_schedules: i64,
    pub deleted_review_logs: i64,
}

pub const DEFAULT_THEME: &'static str = "system";
pub const DEFAULT_LANGUAGE: &'static str = "zh-CN";
pub const DEFAULT_REVIEW_REMINDER_TIME: &'static str = "09:00";
/// The screenshot shortcut used until one is stored.
pub const DEFAULT_SCREENSHOT_SHORTCUT: &'static str = "ctrl+shift+a";

// ---------------------------------------------------------------------------
// Defaults and mappings
// ---------------------------------------------------------------------------

/// The settings shown before any are stored.
pub fn default_settings() -> (r: AppSettingsData)
    ensures
        r.theme@ == DEFAULT_THEME@,
        r.language@ == DEFAULT_LANGUAGE@,
        r.notification_enabled,
        r.review_reminder_enabled,
        r.review_reminder_time@ == DEFAULT_REVIEW_REMINDER_TIME@,
        r.default_model_profile_id is None,
        r.storage.export_directory is None,
{
    AppSettingsData {
        theme: String::from_str(DEFAULT_THEME),
        language: String::from_str(DEFAULT_LANGUAGE),
        notification_enabled: true,
        review_reminder_enabled: true,
        review_reminder_time: String::from_str(DEFAULT_REVIEW_REMINDER_TIME),
        default_model_profile_id: None,
        storage: StorageSettingsData { export_directory: None },
    }
}

/// The stored settings as the front end sees them.
pub fn map_settings(settings: AppSettings) -> (r: AppSettingsData)
    ensures
        r.theme == settings.theme,
        r.language == settings.language,
        r.notification_enabled == settings.notification_enabled,
        r.review_reminder_enabled == settings.review_reminder_enabled,
        r.review_reminder_time == settings.review_reminder_time,
        r.default_model_profile_id == settings.default_model_profile_id,
        r.storage.export_directory == settings.export_directory,
{
    AppSettingsData {
        theme: settings.theme,
        language: settings.language,
        notification_enabled: settings.notification_enabled,
        review_reminder_enabled: settings.review_reminder_enabled,
        review_reminder_time: settings.review_reminder_time,
        default_model_profile_id: settings.default_model_profile_id,
        storage: StorageSettingsData { export_directory: settings.export_directory },
    }
}

/// The settings shown: the stored ones, or the defaults when none are stored.
pub fn shown_settings(stored: Option<AppSettings>) -> (r: AppSettingsData)
    ensures
        stored matches Some(s) ==> r.theme == s.theme && r.language == s.language
            && r.notification_enabled == s.notification_enabled && r.review_reminder_enabled
            == s.review_reminder_enabled && r.review_reminder_time == s.review_reminder_time
            && r.default_model_profile_id == s.default_model_profile_id
            && r.storage.export_directory == s.export_directory,
        stored is None ==> r.theme@ == DEFAULT_THEME@ && r.language@ == DEFAULT_LANGUAGE@
            && r.notification_enabled && r.review_reminder_enabled && r.review_reminder_time@
            == DEFAULT_REVIEW_REMINDER_TIME@ && r.default_model_profile_id is None
            && r.storage.export_directory is None,
{
    match stored {
        Some(s) => map_settings(s),
        None => default_settings(),
    }
}

/// A stored model profile as listed; every stored profile is listed as available.
pub fn map_model_profile(profile: ModelProfile) -> (r: ModelProfileItem)
    ensures
        r.profile_id == profile.id,
        r.name == profile.name,
        r.provider == profile.provider,
        r.endpoint == profile.endpoint,
        r.is_default == profile.is_default,
        r.is_available,
{
    ModelProfileItem {
        profile_id: profile.id,
        name: profile.name,
        provider: profile.provider,
        endpoint: profile.endpoint,
        is_default: profile.is_default,
        is_available: true,
    }
}

/// The stored settings as settings to store again.
pub fn app_settings_to_upsert(settings: &AppSettings) -> (r: UpsertSettings)
    ensures
        r.theme == settings.theme,
        r.language == settings.language,
        r.notification_enabled == settings.notification_enabled,
        r.review_reminder_enabled == settings.review_reminder_enabled,
        r.review_reminder_time == settings.review_reminder_time,
        r.default_model_profile_id == settings.default_model_profile_id,
        r.export_directory == settings.export_directory,
        r.screenshot_shortcut == settings.screenshot_shortcut,
{
    UpsertSettings {
        theme: settings.theme.clone(),
        language: settings.language.clone(),
        notification_enabled: settings.notification_enabled,
        review_reminder_enabled: settings.review_reminder_enabled,
        review_reminder_time: settings.review_reminder_time.clone(),
        default_model_profile_id: clone_opt(&settings.default_model_profile_id),
        export_directory: clone_opt(&settings.export_directory),
        screenshot_shortcut: settings.screenshot_shortcut.clone(),
    }
}

/// The screenshot shortcut to register at start-up: the stored one when settings were
/// read, else the default.
pub fn screenshot_shortcut_of(stored: Option<AppSettings>) -> (r: String)
    ensures
        match stored {
            Some(s) => r == s.screenshot_shortcut,
            None => r@ == DEFAULT_SCREENSHOT_SHORTCUT@,
        },
{
    match stored {
        Some(s) => s.screenshot_shortcut,
        None => String::from_str(DEFAULT_SCREENSHOT_SHORTCUT),
    }
}

/// A copy of an optional string.
fn clone_opt(o: &Option<String>) -> (r: Option<String>)
    ensures
        r == *o,
{
    match o {
        Some(s) => Some(s.clone()),
        None => None,
    }
}

// ---------------------------------------------------------------------------
// Checks
// ---------------------------------------------------------------------------

/// `prefix` followed by `rest`.
fn joined(prefix: &str, rest: &str) -> (r: String)
    ensures
        r@ == prefix@ + rest@,
{
    let mut s = String::from_str(prefix);
    s.append(rest);
    s
}

/// The themes the application offers.
pub open spec fn is_known_theme(t: Seq<char>) -> bool {
    t == "light"@ || t == "dark"@ || t == "system"@
}

/// The languages the application offers.
pub open spec fn is_known_language(l: Seq<char>) -> bool {
    l == "zh-CN"@ || l == "en-US"@
}

/// The model providers the application knows.
pub open spec fn is_known_provider(p: Seq<char>) -> bool {
    p == "openai-compatible"@ || p == "qwen"@ || p == "custom"@
}

/// `e` is the invalid-settings error with the given text.
pub open spec fn is_invalid_settings(e: AppError, message: Seq<char>) -> bool {
    e matches AppError::InvalidSettings { message: m } && m@ == message
}

/// Accepts "light", "dark" and "system".
pub fn validate_theme(theme: &str) -> (r: Result<(), AppError>)
    ensures
        r is Ok <==> is_known_theme(theme@),
        r matches Err(e) ==> is_invalid_settings(e, "theme 非法: "@ + theme@),
{
    if str_is_one_of(theme, &["light", "dark", "system"]) {
        Ok(())
    } else {
        Err(AppError::InvalidSettings { message: joined("theme 非法: ", theme) })
    }
}

/// Accepts "zh-CN" and "en-US".
pub fn validate_language(language: &str) -> (r: Result<(), AppError>)
    ensures
        r is Ok <==> is_known_language(language@),
        r matches Err(e) ==> is_invalid_settings(e, "language 非法: "@ + language@),
{
    if str_is_one_of(language, &["zh-CN", "en-US"]) {
        Ok(())
    } else {
        Err(AppError::InvalidSettings { message: joined("language 非法: ", language) })
    }
}

/// Accepts "openai-compatible", "qwen" and "custom".
pub fn validate_provider(provider: &str) -> (r: Result<(), AppError>)
    ensures
        r is Ok <==> is_known_provider(provider@),
        r matches Err(e) ==> is_invalid_settings(e, "provider 非法: "@ + provider@),
{
    if str_is_one_of(provider, &["openai-compatible", "qwen", "custom"]) {
        Ok(())
    } else {
        Err(AppError::InvalidSettings { message: joined("provider 非法: ", provider) })
    }
}

/// Whether `NaiveTime::parse_from_str(value, "%H:%M")` accepts `value`.
pub uninterp spec fn parses_as_hour_minute(value: Seq<char>) -> bool;

/// Calls chrono's `NaiveTime::parse_from_str` with the format "%H:%M"; whether it
/// succeeds is named by `parses_as_hour_minute`.
#[verifier::external_body]
fn hour_minute_parses(value: &str) -> (r: bool)
    ensures
        r == parses_as_hour_minute(value@),
{
    chrono::NaiveTime::parse_from_str(value, "%H:%M").is_ok()
}

/// The review reminder time is accepted when it parsed as an hour and a minute.
pub fn review_time_check(value: &str, parsed: bool) -> (r: Result<(), AppError>)
    ensures
        r is Ok <==> parsed,
        r matches Err(e) ==> e matches AppError::InvalidTimeFormat { message } && message@
            == "reviewReminderTime 非法: "@ + value@,
{
    if parsed {
        Ok(())
    } else {
        Err(AppError::InvalidTimeFormat { message: joined("reviewReminderTime 非法: ", value) })
    }
}

/// Accepts a review reminder time written as "HH:MM".
pub fn validate_review_reminder_time(value: &str) -> (r: Result<(), AppError>)
    ensures
        r is Ok <==> parses_as_hour_minute(value@),
        r matches Err(e) ==> e matches AppError::InvalidTimeFormat { message } && message@
            == "reviewReminderTime 非法: "@ + value@,
{
    let parsed = hour_minute_parses(value);
    review_time_check(value, parsed)
}

/// The export directory is accepted when the platform takes it for an absolute path.
pub fn export_directory_check(path: &str, is_absolute: bool) -> (r: Result<(), AppError>)
    ensures
        r is Ok <==> is_absolute,
        r matches Err(e) ==> e matches AppError::InvalidPath { message } && message@ == "导出目录必须为绝对路径: "@
            + path@,
{
    if is_absolute {
        Ok(())
    } else {
        Err(AppError::InvalidPath { message: joined("导出目录必须为绝对路径: ", path) })
    }
}

/// Accepts an absolute export directory.
pub fn validate_export_directory(path: &str) -> (r: Result<(), AppError>)
    ensures
        r is Ok ==> path@.len() > 0,
        r matches Err(e) ==> e matches AppError::InvalidPath { message } && message@ == "导出目录必须为绝对路径: "@
            + path@,
{
    let abs = path_is_absolute(path);
    export_directory_check(path, abs)
}

/// The scheme of a URL, in lower case, when `url::Url::parse` accepts the text.
pub uninterp spec fn url_scheme(s: Seq<char>) -> Option<Seq<char>>;

/// Calls `url::Url::parse` and reads the scheme of the parsed URL; the outcome is named
/// by `url_scheme`.
#[verifier::external_body]
fn parse_url_scheme(s: &str) -> (r: Option<String>)
    ensures
        opt_chars(r) == url_scheme(s@),
{
    match url::Url::parse(s) {
        Ok(u) => Some(u.scheme().to_string()),
        Err(_) => None,
    }
}

/// The endpoint as stored: trimmed and without trailing slashes.
pub open spec fn normalized_endpoint(endpoint: Seq<char>) -> Seq<char> {
    strip_end(trim(endpoint), |c: char| c == '/')
}

/// The endpoint is accepted when its trimmed form parsed as a URL (giving `scheme`) with
/// the scheme "http" or "https"; it is then stored trimmed and without trailing slashes.
pub fn endpoint_check(endpoint: &str, scheme: Option<String>) -> (r: Result<String, AppError>)
    ensures
        r is Ok <==> (scheme matches Some(sc) && (sc@ == "http"@ || sc@ == "https"@)),
        r matches Ok(n) ==> n@ == normalized_endpoint(endpoint@),
        r matches Err(e) ==> is_invalid_settings(
            e,
            if scheme is None {
                "endpoint 非法: "@ + endpoint@
            } else {
                "endpoint 必须使用 http/https: "@ + endpoint@
            },
        ),
{
    match scheme {
        None => Err(AppError::InvalidSettings { message: joined("endpoint 非法: ", endpoint) }),
        Some(sc) => {
            if str_is_one_of(sc.as_str(), &["http", "https"]) {
                let t = trimmed_chars_of(endpoint);
                let n = trim_end_char(t.as_slice(), '/');
                Ok(string_from_chars(n.as_slice()))
            } else {
                Err(AppError::InvalidSettings { message: joined("endpoint 必须使用 http/https: ", endpoint) })
            }
        },
    }
}

/// Checks an endpoint and gives it as stored.
pub fn normalize_endpoint(endpoint: &str) -> (r: Result<String, AppError>)
    ensures
        r is Ok <==> (url_scheme(trim(endpoint@)) matches Some(sc) && (sc == "http"@ || sc == "https"@)),
        r matches Ok(n) ==> n@ == normalized_endpoint(endpoint@),
        r matches Err(e) ==> is_invalid_settings(
            e,
            if url_scheme(trim(endpoint@)) is None {
                "endpoint 非法: "@ + endpoint@
            } else {
                "endpoint 必须使用 http/https: "@ + endpoint@
            },
        ),
{
    let t = trimmed_chars_of(endpoint);
    let ts = string_from_chars(t.as_slice());
    let scheme = parse_url_scheme(ts.as_str());
    endpoint_check(endpoint, scheme)
}

/// The first problem with a model profile's fields, in the order they are checked:
/// a blank name, an unknown provider, a bad endpoint, a blank key, a timeout that is not
/// positive.
pub open spec fn profile_fields_ok(name: Seq<char>, provider: Seq<char>, endpoint: Seq<char>, api_key: Seq<char>, timeout_ms: i64) -> bool {
    &&& trim(name).len() > 0
    &&& is_known_provider(provider)
    &&& url_scheme(trim(endpoint)) matches Some(sc) && (sc == "http"@ || sc == "https"@)
    &&& trim(api_key).len() > 0
    &&& timeout_ms > 0
}

/// The error for the first bad field of a model profile.
pub open spec fn profile_fields_error(e: AppError, name: Seq<char>, provider: Seq<char>, endpoint: Seq<char>, api_key: Seq<char>) -> bool {
    if trim(name).len() == 0 {
        is_invalid_settings(e, "模型配置名称不能为空"@)
    } else if !is_known_provider(provider) {
        is_invalid_settings(e, "provider 非法: "@ + provider)
    } else if url_scheme(trim(endpoint)) is None {
        is_invalid_settings(e, "endpoint 非法: "@ + endpoint)
    } else if !(url_scheme(trim(endpoint)) matches Some(sc) && (sc == "http"@ || sc == "https"@)) {
        is_invalid_settings(e, "endpoint 必须使用 http/https: "@ + endpoint)
    } else if trim(api_key).len() == 0 {
        is_invalid_settings(e, "apiKey 不能为空"@)
    } else {
        is_invalid_settings(e, "timeoutMs 必须大于 0"@)
    }
}

/// Checks the fields of a model profile.
pub fn validate_model_profile_fields(name: &str, provider: &str, endpoint: &str, api_key: &str, timeout_ms: i64) -> (r: Result<(), AppError>)
    ensures
        r is Ok <==> profile_fields_ok(name@, provider@, endpoint@, api_key@, timeout_ms),
        r matches Err(e) ==> profile_fields_error(e, name@, provider@, endpoint@, api_key@),
{
    if trimmed_chars_of(name).len() == 0 {
        return Err(AppError::InvalidSettings { message: String::from_str("模型配置名称不能为空") });
    }
    match validate_provider(provider) {
        Ok(()) => {},
        Err(e) => {
            return Err(e);
        },
    }
    match normalize_endpoint(endpoint) {
        Ok(_) => {},
        Err(e) => {
            return Err(e);
        },
    }
    if trimmed_chars_of(api_key).len() == 0 {
        return Err(AppError::InvalidSettings { message: String::from_str("apiKey 不能为空") });
    }
    if timeout_ms <= 0 {
        return Err(AppError::InvalidSettings { message: String::from_str("timeoutMs 必须大于 0") });
    }
    Ok(())
}

/// Checks settings entered by the user: theme, language, reminder time and export
/// directory, in that order, reporting the first problem.
pub fn validate_settings_input(input: &UpdateSettingsInput) -> (r: Result<(), AppError>)
    ensures
        r is Ok ==> is_known_theme(input.theme@) && is_known_language(input.language@)
            && parses_as_hour_minute(input.review_reminder_time@),
        !is_known_theme(input.theme@) ==> (r matches Err(e) && is_invalid_settings(e, "theme 非法: "@ + input.theme@)),
        is_known_theme(input.theme@) && !is_known_language(input.language@) ==> (r matches Err(e)
            && is_invalid_settings(e, "language 非法: "@ + input.language@)),
        is_known_theme(input.theme@) && is_known_language(input.language@) && !parses_as_hour_minute(
            input.review_reminder_time@,
        ) ==> (r matches Err(e) && e matches AppError::InvalidTimeFormat { message } && message@
            == "reviewReminderTime 非法: "@ + input.review_reminder_time@),
        is_known_theme(input.theme@) && is_known_language(input.language@) && parses_as_hour_minute(
            input.review_reminder_time@,
        ) ==> match input.storage.export_directory {
            None => r is Ok,
            Some(d) => (r is Ok ==> d@.len() > 0) && (r matches Err(e) ==> e matches AppError::InvalidPath {
                message,
            } && message@ == "导出目录必须为绝对路径: "@ + d@),
        },
{
    match validate_theme(input.theme.as_str()) {
        Ok(()) => {},
        Err(e) => {
            return Err(e);
        },
    }
    match validate_language(input.language.as_str()) {
        Ok(()) => {},
        Err(e) => {
            return Err(e);
        },
    }
    match validate_review_reminder_time(input.review_reminder_time.as_str()) {
        Ok(()) => {},
        Err(e) => {
            return Err(e);
        },
    }
    match &input.storage.export_directory {
        Some(d) => validate_export_directory(d.as_str()),
        None => Ok(()),
    }
}

/// The URL of the chat completions endpoint: the stored endpoint, followed by
/// "/chat/completions" unless it already ends with that.
pub open spec fn completions_url_of(normalized: Seq<char>) -> Seq<char> {
    if has_suffix(normalized, "/chat/completions"@) {
        normalized
    } else {
        normalized + "/chat/completions"@
    }
}

/// The chat completions URL of a provider's endpoint.
pub fn chat_completions_url(provider: &str, endpoint: &str) -> (r: Result<String, AppError>)
    ensures
        r is Ok <==> is_known_provider(provider@) && (url_scheme(trim(endpoint@)) matches Some(sc) && (sc
            == "http"@ || sc == "https"@)),
        r matches Ok(u) ==> u@ == completions_url_of(normalized_endpoint(endpoint@)),
        r matches Err(e) ==> if !is_known_provider(provider@) {
            is_invalid_settings(e, "provider 非法: "@ + provider@)
        } else if url_scheme(trim(endpoint@)) is None {
            is_invalid_settings(e, "endpoint 非法: "@ + endpoint@)
        } else {
            is_invalid_settings(e, "endpoint 必须使用 http/https: "@ + endpoint@)
        },
{
    match validate_provider(provider) {
        Ok(()) => {},
        Err(e) => {
            return Err(e);
        },
    }
    let normalized = match normalize_endpoint(endpoint) {
        Ok(n) => n,
        Err(e) => {
            return Err(e);
        },
    };
    let v = chars_of(normalized.as_str());
    let suffix = chars_of("/chat/completions");
    if ends_with_chars(v.as_slice(), suffix.as_slice()) {
        Ok(normalized)
    } else {
        Ok(joined(normalized.as_str(), "/chat/completions"))
    }
}

// ---------------------------------------------------------------------------
// What is stored
// ---------------------------------------------------------------------------

/// The settings stored for accepted input: what was entered, with the default model
/// profile and the screenshot shortcut kept from the stored settings (the default shortcut
/// when none are stored).
pub fn settings_to_store(input: UpdateSettingsInput, existing: Option<AppSettings>) -> (r: UpsertSettings)
    ensures
        r.theme == input.theme,
        r.language == input.language,
        r.notification_enabled == input.notification_enabled,
        r.review_reminder_enabled == input.review_reminder_enabled,
        r.review_reminder_time == input.review_reminder_time,
        r.export_directory == input.storage.export_directory,
        r.default_model_profile_id == match existing {
            Some(s) => s.default_model_profile_id,
            None => None,
        },
        match existing {
            Some(s) => r.screenshot_shortcut == s.screenshot_shortcut,
            None => r.screenshot_shortcut@ == DEFAULT_SCREENSHOT_SHORTCUT@,
        },
{
    let (default_model_profile_id, screenshot_shortcut) = match existing {
        Some(s) => (s.default_model_profile_id, s.screenshot_shortcut),
        None => (None, String::from_str(DEFAULT_SCREENSHOT_SHORTCUT)),
    };
    UpsertSettings {
        theme: input.theme,
        language: input.language,
        notification_enabled: input.notification_enabled,
        review_reminder_enabled: input.review_reminder_enabled,
        review_reminder_time: input.review_reminder_time,
        default_model_profile_id,
        export_directory: input.storage.export_directory,
        screenshot_shortcut,
    }
}

/// `i` is the first of the profiles with the id `id`.
pub open spec fn first_with_id(ps: Seq<ModelProfile>, id: Seq<char>, i: int) -> bool {
    &&& 0 <= i < ps.len()
    &&& ps[i].id@ == id
    &&& forall|j: int| 0 <= j < i ==> (#[trigger] ps[j]).id@ != id
}

/// Whether a saved profile is the default: as the first stored profile with its id was,
/// or, for a new id, when no profile is stored yet.
pub open spec fn saved_is_default(ps: Seq<ModelProfile>, id: Seq<char>, d: bool) -> bool {
    if exists|i: int| first_with_id(ps, id, i) {
        exists|i: int| first_with_id(ps, id, i) && d == ps[i].is_default
    } else {
        d == (ps.len() == 0)
    }
}

/// Whether the stored profile with id `id` that comes first is the default, if one is stored.
fn stored_default_flag(ps: &Vec<ModelProfile>, id: &str) -> (r: Option<bool>)
    ensures
        r is None <==> !exists|i: int| first_with_id(ps@, id@, i),
        r matches Some(d) ==> exists|i: int| first_with_id(ps@, id@, i) && d == ps@[i].is_default,
{
    let mut i: usize = 0;
    while i < ps.len()
        invariant
            i <= ps@.len(),
            forall|j: int| 0 <= j < i ==> (#[trigger] ps@[j]).id@ != id@,
        decreases ps@.len() - i,
    {
        if crate::text::str_eq(ps[i].id.as_str(), id) {
            assert(first_with_id(ps@, id@, i as int));
            return Some(ps[i].is_default);
        }
        i += 1;
    }
    assert forall|k: int| !first_with_id(ps@, id@, k) by {
        if 0 <= k < ps@.len() {
            assert(ps@[k].id@ != id@);
        }
    }
    None
}

/// A model profile to store, and whether it is the first one.
#[derive(Debug, Clone, PartialEq, Eq)]
pub struct ModelProfileSave {
    pub profile: UpsertModelProfile,
    pub is_first_profile: bool,
}

/// What to store for a model profile entered by the user, given the stored profiles and a
/// fresh id for a new profile.
///
/// The fields are checked first. The profile keeps its id, or takes the fresh one; it is
/// the default when the stored profile with its id was, and a new profile is the default
/// when it is the first. The endpoint is stored normalised and the key as entered.
pub fn model_profile_to_store(input: SaveModelProfileInput, existing: &Vec<ModelProfile>, fresh_id: String) -> (r: Result<ModelProfileSave, AppError>)
    ensures
        r is Ok <==> profile_fields_ok(input.name@, input.provider@, input.endpoint@, input.api_key@, input.timeout_ms),
        r matches Err(e) ==> profile_fields_error(e, input.name@, input.provider@, input.endpoint@, input.api_key@),
        r matches Ok(s) ==> {
            &&& s.profile.id == match input.profile_id {
                Some(id) => id,
                None => fresh_id,
            }
            &&& s.profile.name == input.name
            &&& s.profile.provider == input.provider
            &&& s.profile.endpoint@ == normalized_endpoint(input.endpoint@)
            &&& s.profile.model == input.model
            &&& s.profile.timeout_ms == input.timeout_ms
            &&& s.profile.api_key_secret_ref == Some(input.api_key)
            &&& saved_is_default(existing@, s.profile.id@, s.profile.is_default)
            &&& s.is_first_profile == (existing@.len() == 0)
        },
{
    match validate_model_profile_fields(
        input.name.as_str(),
        input.provider.as_str(),
        input.endpoint.as_str(),
        input.api_key.as_str(),
        input.timeout_ms,
    ) {
        Ok(()) => {},
        Err(e) => {
            return Err(e);
        },
    }
    let endpoint = match normalize_endpoint(input.endpoint.as_str()) {
        Ok(n) => n,
        Err(e) => {
            return Err(e);
        },
    };
    let profile_id = match input.profile_id {
        Some(id) => id,
        None => fresh_id,
    };
    let is_first_profile = existing.len() == 0;
    let is_default = match stored_default_flag(existing, profile_id.as_str()) {
        Some(d) => d,
        None => is_first_profile,
    };
    Ok(
        ModelProfileSave {
            profile: UpsertModelProfile {
                id: profile_id,
                name: input.name,
                provider: input.provider,
                endpoint,
                model: input.model,
                timeout_ms: input.timeout_ms,
                api_key_secret_ref: Some(input.api_key),
                is_default,
            },
            is_first_profile,
        },
    )
}

/// The settings stored after the first model profile is saved: the stored settings (or
/// the defaults when none are stored) with that profile as the default.
pub fn settings_after_first_profile(existing: Option<AppSettings>, saved_id: String) -> (r: UpsertSettings)
    ensures
        r.default_model_profile_id == Some(saved_id),
        match existing {
            Some(s) => {
                &&& r.theme == s.theme
                &&& r.language == s.language
                &&& r.notification_enabled == s.notification_enabled
                &&& r.review_reminder_enabled == s.review_reminder_enabled
                &&& r.review_reminder_time == s.review_reminder_time
                &&& r.export_directory == s.export_directory
                &&& r.screenshot_shortcut == s.screenshot_shortcut
            },
            None => {
                &&& r.theme@ == DEFAULT_THEME@
                &&& r.language@ == DEFAULT_LANGUAGE@
                &&& r.notification_enabled
                &&& r.review_reminder_enabled
                &&& r.review_reminder_time@ == DEFAULT_REVIEW_REMINDER_TIME@
                &&& r.export_directory is None
                &&& r.screenshot_shortcut@ == DEFAULT_SCREENSHOT_SHORTCUT@
            },
        },
{
    let mut base = match &existing {
        Some(s) => app_settings_to_upsert(s),
        None => UpsertSettings {
            theme: String::from_str(DEFAULT_THEME),
            language: String::from_str(DEFAULT_LANGUAGE),
            notification_enabled: true,
            review_reminder_enabled: true,
            review_reminder_time: String::from_str(DEFAULT_REVIEW_REMINDER_TIME),
            default_model_profile_id: None,
            export_directory: None,
            screenshot_shortcut: String::from_str(DEFAULT_SCREENSHOT_SHORTCUT),
        },
    };
    base.default_model_profile_id = Some(saved_id);
    base
}

// ---------------------------------------------------------------------------
// Trying a model profile
// ---------------------------------------------------------------------------

/// What a trial request's HTTP status means: 401 and 403 are a refused key, a 2xx status
/// is success with the measured latency, and any other status a failed connection.
pub fn probe_outcome(status: u16, latency_ms: u128) -> (r: Result<TestModelProfileData, AppError>)
    ensures
        (status == 401 || status == 403) ==> r == Err::<TestModelProfileData, AppError>(AppError::ModelAuthFailed),
        (200 <= status <= 299) ==> (r matches Ok(d) && d.reachable && d.latency_ms == latency_ms),
        !(status == 401 || status == 403 || (200 <= status <= 299)) ==> (r matches Err(e) && e matches AppError::ModelConnectionFailed {
            message,
        } && message@ == "模型返回 HTTP "@ + crate::text::decimal(status as nat)),
{
    if status == 401 || status == 403 {
        Err(AppError::ModelAuthFailed)
    } else if 200 <= status && status <= 299 {
        Ok(TestModelProfileData { reachable: true, latency_ms })
    } else {
        let mut v = chars_of("模型返回 HTTP ");
        crate::text::push_decimal(status as u64, &mut v);
        Err(AppError::ModelConnectionFailed { message: string_from_chars(v.as_slice()) })
    }
}

/// The error for a trial request that got no reply: a timeout, or another failure
/// described by `detail`.
pub fn probe_failure(timed_out: bool, detail: &str) -> (r: AppError)
    ensures
        timed_out ==> (r matches AppError::ModelConnectionFailed { message } && message@ == "模型请求超时"@),
        !timed_out ==> (r matches AppError::ModelConnectionFailed { message } && message@ == "模型请求失败: "@ + detail@),
{
    if timed_out {
        AppError::ModelConnectionFailed { message: String::from_str("模型请求超时") }
    } else {
        AppError::ModelConnectionFailed { message: joined("模型请求失败: ", detail) }
    }
}

/// A chat-completions URL always ends with "/chat/completions", and it is the stored
/// endpoint itself when that already ends so.
pub proof fn law_completions_url_ends_with_path(normalized: Seq<char>)
    ensures
        has_suffix(completions_url_of(normalized), "/chat/completions"@),
        has_suffix(normalized, "/chat/completions"@) ==> completions_url_of(normalized) == normalized,
{
    let p = "/chat/completions"@;
    if !has_suffix(normalized, p) {
        let u = normalized + p;
        assert(u.subrange(u.len() - p.len(), u.len() as int) =~= p);
    }
}

/// A stored endpoint never ends with a slash.
pub proof fn law_normalized_endpoint_has_no_trailing_slash(endpoint: Seq<char>)
    ensures
        normalized_endpoint(endpoint).len() > 0 ==> normalized_endpoint(endpoint).last() != '/',
{
    crate::text::lemma_strip_end_stops(trim(endpoint), |c: char| c == '/');
}

} // verus!
