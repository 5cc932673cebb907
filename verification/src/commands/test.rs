//! The commands with which the bot is tried out.

use crate::client_data::GuildId;
use crate::decimal::{decimal, decimal_string, signed_decimal, signed_decimal_string};
use vstd::prelude::*;

verus! {

/// What the bot says of a number that is none.
pub const NOT_A_NUMBER: &'static str = "The given number doesn't seem to be an i32.";

/// What the bot says where the database returns nothing.
pub const NO_DOCUMENT: &'static str = "No document was returned...?";

/// Under which name a count is kept: the guild's number, and `dm` for a
/// message outside of any guild.
pub fn count_scope(guild: Option<GuildId>) -> (scope: String)
    ensures
        scope@ == match guild {
            Some(id) => decimal(id.0 as nat),
            None => "dm"@,
        },
{
    match guild {
        Some(id) => decimal_string(id.0),
        None => String::from_str("dm"),
    }
}

/// What the bot says of the count `count`.
pub fn new_count(count: i64) -> (text: String)
    ensures
        text@ == "The new count is "@ + signed_decimal(count as int) + "."@,
{
    String::from_str("The new count is ").concat(signed_decimal_string(count).as_str()).concat(".")
}

/// What the bot says of a count that the database holds as no whole number,
/// before it shows what the database holds.
pub const COUNTED_TOO_MUCH: &'static str =
    "You counted too much! Use `:count <negative number>` to clean up your mess.";

} // verus!
