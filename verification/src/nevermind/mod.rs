//! The first generation of the card pipeline: cards with a single keyword, and the
//! stricter reply check that goes with them.

pub mod ai;
pub mod models;
pub mod scheduler;
pub mod utils;
