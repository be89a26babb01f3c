//! The desktop observer: which foreground windows and browser tabs count as learning
//! moments, and what is recorded about them.

pub mod browser_moment;
pub mod error;
pub mod event;
pub mod recording;
pub mod paths;
pub mod learning_snapshot;
