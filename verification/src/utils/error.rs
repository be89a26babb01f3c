//! The errors of the application, their stable codes and the texts shown for them.

use vstd::prelude::*;

use crate::text::str_eq;

verus! {

/// What can go wrong in a command.
///
/// The storage errors carry the text that the database layer gave for them.
#[derive(Debug, Clone, PartialEq, Eq)]
pub enum AppError {
    Database { message: String },
    Migration { message: String },
    NotFound { entity: &'static str },
    Validation { message: String },
    InvalidSettings { message: String },
    InvalidTimeFormat { message: String },
    InvalidPath { message: String },
    InvalidReviewOperation { message: String },
    AiTimeout,
    AiUnavailable { message: String },
    AiResponseInvalid { message: String },
    ModelConnectionFailed { message: String },
    ModelAuthFailed,
}

/// The stable code of a missing entity.
pub open spec fn not_found_code(entity: Seq<char>) -> Seq<char> {
    if entity == "generation_batch"@ {
        "GENERATION_BATCH_NOT_FOUND"@
    } else if entity == "review_schedule"@ {
        "REVIEW_NOT_FOUND"@
    } else if entity == "card"@ {
        "CARD_NOT_FOUND"@
    } else if entity == "model_profile"@ {
        "MODEL_PROFILE_NOT_FOUND"@
    } else {
        "NOT_FOUND"@
    }
}

/// The stable code the front end maps its messages by.
pub open spec fn error_code(e: AppError) -> Seq<char> {
    match e {
        AppError::Database { .. } => "DB_WRITE_FAILED"@,
        AppError::Migration { .. } => "DB_WRITE_FAILED"@,
        AppError::NotFound { entity } => not_found_code(entity@),
        AppError::Validation { .. } => "INVALID_INPUT"@,
        AppError::InvalidSettings { .. } => "INVALID_SETTINGS"@,
        AppError::InvalidTimeFormat { .. } => "INVALID_TIME_FORMAT"@,
        AppError::InvalidPath { .. } => "INVALID_PATH"@,
        AppError::InvalidReviewOperation { .. } => "INVALID_REVIEW_OPERATION"@,
        AppError::AiTimeout => "AI_TIMEOUT"@,
        AppError::AiUnavailable { .. } => "AI_UNAVAILABLE"@,
        AppError::AiResponseInvalid { .. } => "AI_RESPONSE_INVALID"@,
        AppError::ModelConnectionFailed { .. } => "MODEL_CONNECTION_FAILED"@,
        AppError::ModelAuthFailed => "MODEL_AUTH_FAILED"@,
    }
}

/// The text shown for an error.
pub open spec fn error_text(e: AppError) -> Seq<char> {
    match e {
        AppError::Database { message } => "database error: "@ + message@,
        AppError::Migration { message } => "migration error: "@ + message@,
        AppError::NotFound { entity } => "not found: "@ + entity@,
        AppError::Validation { message } => "validation error: "@ + message@,
        AppError::InvalidSettings { message } => "invalid settings: "@ + message@,
        AppError::InvalidTimeFormat { message } => "invalid time format: "@ + message@,
        AppError::InvalidPath { message } => "invalid path: "@ + message@,
        AppError::InvalidReviewOperation { message } => "invalid review operation: "@ + message@,
        AppError::AiTimeout => "ai timeout"@,
        AppError::AiUnavailable { message } => "ai unavailable: "@ + message@,
        AppError::AiResponseInvalid { message } => "ai response invalid: "@ + message@,
        AppError::ModelConnectionFailed { message } => "model connection failed: "@ + message@,
        AppError::ModelAuthFailed => "model auth failed"@,
    }
}

/// `prefix` followed by `rest`.
fn joined(prefix: &str, rest: &str) -> (r: String)
    ensures
        r@ == prefix@ + rest@,
{
    let mut s = String::from_str(prefix);
    s.append(rest);
    s
}

impl AppError {
    /// The stable code of the error.
    pub fn code(&self) -> (r: &'static str)
        ensures
            r@ == error_code(*self),
    {
        match self {
            AppError::Database { .. } => "DB_WRITE_FAILED",
            AppError::Migration { .. } => "DB_WRITE_FAILED",
            AppError::NotFound { entity } => {
                if str_eq(entity, "generation_batch") {
                    "GENERATION_BATCH_NOT_FOUND"
                } else if str_eq(entity, "review_schedule") {
                    "REVIEW_NOT_FOUND"
                } else if str_eq(entity, "card") {
                    "CARD_NOT_FOUND"
                } else if str_eq(entity, "model_profile") {
                    "MODEL_PROFILE_NOT_FOUND"
                } else {
                    "NOT_FOUND"
                }
            },
            AppError::Validation { .. } => "INVALID_INPUT",
            AppError::InvalidSettings { .. } => "INVALID_SETTINGS",
            AppError::InvalidTimeFormat { .. } => "INVALID_TIME_FORMAT",
            AppError::InvalidPath { .. } => "INVALID_PATH",
            AppError::InvalidReviewOperation { .. } => "INVALID_REVIEW_OPERATION",
            AppError::AiTimeout => "AI_TIMEOUT",
            AppError::AiUnavailable { .. } => "AI_UNAVAILABLE",
            AppError::AiResponseInvalid { .. } => "AI_RESPONSE_INVALID",
            AppError::ModelConnectionFailed { .. } => "MODEL_CONNECTION_FAILED",
            AppError::ModelAuthFailed => "MODEL_AUTH_FAILED",
        }
    }

    /// The text shown for the error.
    pub fn message(&self) -> (r: String)
        ensures
            r@ == error_text(*self),
    {
        match self {
            AppError::Database { message } => joined("database error: ", message.as_str()),
            AppError::Migration { message } => joined("migration error: ", message.as_str()),
            AppError::NotFound { entity } => joined("not found: ", entity),
            AppError::Validation { message } => joined("validation error: ", message.as_str()),
            AppError::InvalidSettings { message } => joined("invalid settings: ", message.as_str()),
            AppError::InvalidTimeFormat { message } => joined("invalid time format: ", message.as_str()),
            AppError::InvalidPath { message } => joined("invalid path: ", message.as_str()),
            AppError::InvalidReviewOperation { message } => joined(
                "invalid review operation: ",
                message.as_str(),
            ),
            AppError::AiTimeout => String::from_str("ai timeout"),
            AppError::AiUnavailable { message } => joined("ai unavailable: ", message.as_str()),
            AppError::AiResponseInvalid { message } => joined("ai response invalid: ", message.as_str()),
            AppError::ModelConnectionFailed { message } => joined(
                "model connection failed: ",
                message.as_str(),
            ),
            AppError::ModelAuthFailed => String::from_str("model auth failed"),
        }
    }
}

/// An error as the front end receives it: its code and its text.
#[derive(Debug, Clone, PartialEq, Eq)]
pub struct CommandError {
    pub code: String,
    pub message: String,
}

impl CommandError {
    /// The error as the front end receives it.
    pub fn from_error(value: AppError) -> (r: CommandError)
        ensures
            r.code@ == error_code(value),
            r.message@ == error_text(value),
    {
        let code = value.code();
        CommandError { code: String::from_str(code), message: value.message() }
    }
}

} // verus!
