//! Stored settings and model profiles.

use vstd::prelude::*;

use crate::time::Timestamp;

verus! {

/// The stored settings row.
#[derive(Debug, Clone, PartialEq, Eq)]
pub struct AppSettings {
    pub id: i64,
    pub theme: String,
    pub language: String,
    pub notification_enabled: bool,
    pub review_reminder_enabled: bool,
    pub review_reminder_time: String,
    pub default_model_profile_id: Option<String>,
    pub export_directory: Option<String>,
    pub screenshot_shortcut: String,
    pub updated_at: Timestamp,
}

/// A stored model profile.
#[derive(Debug, Clone, PartialEq, Eq)]
pub struct ModelProfile {
    pub id: String,
    pub name: String,
    pub provider: String,
    pub endpoint: String,
    pub model: Option<String>,
    pub timeout_ms: i64,
    pub api_key_secret_ref: Option<String>,
    pub is_default: bool,
    pub created_at: Timestamp,
    pub updated_at: Timestamp,
}

/// The settings to store.
#[derive(Debug, Clone, PartialEq, Eq)]
pub struct UpsertSettings {
    pub theme: String,
    pub language: String,
    pub notification_enabled: bool,
    pub review_reminder_enabled: bool,
    pub review_reminder_time: String,
    pub default_model_profile_id: Option<String>,
    pub export_directory: Option<String>,
    pub screenshot_shortcut: String,
}

/// A model profile to store.
#[derive(Debug, Clone, PartialEq, Eq)]
pub struct UpsertModelProfile {
    pub id: String,
    pub name: String,
    pub provider: String,
    pub endpoint: String,
    pub model: Option<String>,
    pub timeout_ms: i64,
    pub api_key_secret_ref: Option<String>,
    pub is_default: bool,
}

} // verus!
