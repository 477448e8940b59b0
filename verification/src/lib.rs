//! Decision logic of a small chat bot that answers one command, `ping`.
//!
//! The bot's process talks to a chat platform through a client framework; that
//! side is all input and output. What the bot decides is gathered here as plain
//! functions from plain values to plain values: what it needs to start, what it
//! answers, what it logs, and what it does with an error that the framework
//! reports.

pub mod intents;
pub mod errors;
pub mod ping;
pub mod hooks;
pub mod config;
