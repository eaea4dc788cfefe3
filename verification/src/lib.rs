//! Recording sessions, audio capture control and speech recognition
//! orchestration for a meeting summarizer, with machine-checked contracts.

pub mod commands;
pub mod database;
pub mod errors;
pub mod models;
pub mod platform;
pub mod services;
pub mod text;
pub mod wav;
