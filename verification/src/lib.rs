//! Verified core of the Talium chat bot backend.
pub mod auth;
pub mod chat;
pub mod commands;
pub mod compiled;
pub mod delivery;
pub mod cooldown;
pub mod encoding;
pub mod executor;
pub mod oauth;
pub mod panel;
pub mod patterns;
pub mod poc;
mod seqs;
pub mod session;
pub mod table;
pub mod text;
pub mod twitch_auth;
