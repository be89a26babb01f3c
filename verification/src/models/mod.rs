pub mod card;
pub mod review;
pub mod settings;
