//! The application errors, shared with the current pipeline.

pub use crate::utils::error::{AppError, CommandError};
