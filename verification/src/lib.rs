//! NeverMind: a spaced-repetition knowledge-card library with a desktop
//! browsing observer. The modules hold the verified core: text handling,
//! review scheduling, card models, AI response normalisation, settings
//! validation and the browser-moment heuristics.

pub mod text;
pub mod time;
pub mod scheduler;
pub mod models;
pub mod harness_core;
pub mod db;
pub mod commands;
pub mod utils;
pub mod ai;
pub mod nevermind;
