//! What the desktop commands decide, apart from the storage and the window plumbing.

pub mod library;
pub mod settings;
pub mod review;
pub mod generate;
pub mod screenshot;
pub mod tray;
