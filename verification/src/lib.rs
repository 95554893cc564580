//! Verified core of a small Discord chat bot.
//!
//! The crate holds every decision the bot makes as a function on plain
//! values: what a command replies, which messages address the bot, which
//! gateway events are logged, how a framework error is handled and when
//! start-up has to be abandoned. The surrounding program performs the I/O.

pub mod commands;
pub mod config;
pub mod dispatch;
pub mod errors;
pub mod events;
pub mod logging;
pub mod startup;
