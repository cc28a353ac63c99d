//! Verified core of a Discord community bot: the reminder durations that are
//! kept for each scheduled guild event, the rules that decide when a reminder
//! is due, the texts that the bot sends, and the mapping of failures onto the
//! bot's own error type.

pub mod durations;
pub mod schedule;
mod seq_facts;
pub mod errors;
pub mod ids;
pub mod events;
pub mod messages;
