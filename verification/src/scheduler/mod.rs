pub mod ebbinghaus;
pub mod rules;
