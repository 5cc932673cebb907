//! The commands for the bot's owner.

use crate::decimal::{decimal, decimal_string};
use vstd::prelude::*;

verus! {

/// What the bot says where it does not find the channel.
pub const NO_CHANNEL: &'static str = "Failed to find channel in cache.";

/// What the bot says once it has tried to set the channel's slow mode to
/// `seconds` seconds.
pub fn slow_mode_set(seconds: u64, done: bool) -> (text: String)
    ensures
        text@ == (if done {
            "Successfully set slow mode rate to `"@
        } else {
            "Failed to set slow mode to `"@
        }) + decimal(seconds as nat) + "` seconds."@,
{
    String::from_str(
        if done {
            "Successfully set slow mode rate to `"
        } else {
            "Failed to set slow mode to `"
        },
    ).concat(decimal_string(seconds).as_str()).concat("` seconds.")
}

/// What the bot says of a channel's slow mode.  A channel without one has a
/// slow mode of 0 seconds.
pub fn slow_mode_now(seconds: Option<u64>) -> (text: String)
    ensures
        text@ == "Current slow mode rate is `"@ + decimal(
            match seconds {
                Some(rate) => rate as nat,
                None => 0,
            },
        ) + "` seconds."@,
{
    let rate = match seconds {
        Some(rate) => rate,
        None => 0,
    };
    String::from_str("Current slow mode rate is `").concat(decimal_string(rate).as_str()).concat(
        "` seconds.",
    )
}

} // verus!
