//! The verified core of a chat bot: per-guild records, the staged JSON
//! documents they are stored as, and the text and lookup rules of the bot's
//! commands.

pub mod chance;
pub mod client_data;
pub mod commands;
pub mod db;
pub mod decimal;
pub mod dumb_error;
pub mod error_with_reason;
pub mod json;
pub mod page;
pub mod pattern;
pub mod serde_conversions;
pub mod store;
pub mod table;
pub mod text;
pub mod string_map;
