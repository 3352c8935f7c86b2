//! Reaction roles, grammar points and tags of a community bot, as verified logic.
//!
//! The crate holds the decisions of the bot: which reaction grants which role,
//! how a point changes a member's balance and the guild total, and what the
//! per-guild record store answers. Talking to the chat gateway and to a remote
//! store is left to the caller, which hands plain values in and carries the
//! decisions out.

pub mod text;
pub mod types;
pub mod records;
pub mod db_interactions;
pub mod events;
pub mod laws;
pub mod tag_commands;
pub mod embed_tools;
pub mod role_commands;
pub mod point_commands;
pub mod commands_util;
pub mod user_commands;
pub mod commands_extra;
