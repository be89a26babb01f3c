//! Talking to the language model: the prompt sent, and how its reply is read.

pub mod parser;
pub mod prompt;
pub mod client;
pub mod ark_client;
pub mod config;
