//! The rules and the wording of the bot's commands.  What a command reads
//! from the chat service or the database comes in as plain values, and what
//! it is to send goes out as text.

pub mod emoji;
pub mod general;
pub mod hooks;
pub mod owner;
pub mod test;
pub mod webtoon;
pub mod whois;
