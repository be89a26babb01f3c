use nevermind::utils::error::{AppError, CommandError};

#[test]
fn error_codes_are_stable() {
    assert_eq!(AppError::NotFound { entity: "generation_batch" }.code(), "GENERATION_BATCH_NOT_FOUND");
    assert_eq!(AppError::NotFound { entity: "review_schedule" }.code(), "REVIEW_NOT_FOUND");
    assert_eq!(AppError::NotFound { entity: "card" }.code(), "CARD_NOT_FOUND");
    assert_eq!(AppError::NotFound { entity: "model_profile" }.code(), "MODEL_PROFILE_NOT_FOUND");
    assert_eq!(AppError::NotFound { entity: "other" }.code(), "NOT_FOUND");
    assert_eq!(AppError::Database { message: "x".into() }.code(), "DB_WRITE_FAILED");
    assert_eq!(AppError::Migration { message: "x".into() }.code(), "DB_WRITE_FAILED");
    assert_eq!(AppError::AiTimeout.code(), "AI_TIMEOUT");
    assert_eq!(AppError::ModelAuthFailed.code(), "MODEL_AUTH_FAILED");
}

#[test]
fn command_errors_carry_code_and_text() {
    let e = CommandError::from_error(AppError::NotFound { entity: "card" });
    assert_eq!(e.code, "CARD_NOT_FOUND");
    assert_eq!(e.message, "not found: card");
    let e = CommandError::from_error(AppError::AiTimeout);
    assert_eq!(e.message, "ai timeout");
    let e = CommandError::from_error(AppError::InvalidPath { message: "p".into() });
    assert_eq!(e.code, "INVALID_PATH");
    assert_eq!(e.message, "invalid path: p");
}
