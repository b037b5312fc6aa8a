//! Session lifecycle rules for a terminal host: which program a new session
//! launches, how the single session slot changes, and what is reported to
//! the front end.

pub mod command;
pub mod config;
pub mod error;
pub mod session;
pub mod text;
pub mod watch;
