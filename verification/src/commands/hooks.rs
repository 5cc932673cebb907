//! What the bot does around every command and with every other message.

use crate::decimal::{decimal, decimal_string};
use crate::pattern::{is_found, is_match, regex_is_match};
use vstd::prelude::*;

verus! {

/// The pattern of the bot's name as a word of its own.
pub const MENTIONED_MOOFY: &'static str = "\\bmoofy\\b";

/// What the bot answers where it is mentioned.
pub const PING_EMOJI: &'static str = "<:ping:719277539113041930>";

/// Whether `content` names the bot, in small or capital letters.
pub fn mentions_moofy(content: &str) -> (named: bool)
    ensures
        named == (regex_is_match(MENTIONED_MOOFY@, true, content@) == Some(true)),
{
    is_found(is_match(MENTIONED_MOOFY, true, content))
}

/// What the bot says of a command that ended in an error.
pub fn command_error_notice(command_name: &str) -> (text: String)
    ensures
        text@ == "Command '"@ + command_name@ + "' returned error"@,
{
    String::from_str("Command '").concat(command_name).concat("' returned error")
}

/// What the bot says to one who has to wait `seconds` seconds before the
/// command may be used again.
pub fn ratelimit_notice(seconds: u64) -> (text: String)
    ensures
        text@ == "Try this again in "@ + decimal(seconds as nat) + " seconds."@,
{
    String::from_str("Try this again in ").concat(decimal_string(seconds).as_str()).concat(
        " seconds.",
    )
}

/// Whom a message mentions.
#[derive(Clone, Copy, Debug, PartialEq, Eq, Structural)]
pub enum PingTarget {
    Everyone,
    Role(u64),
    User(u64),
}

/// The targets of a message that mentions everyone if `everyone` holds, the
/// roles `roles` and the users `users`: everyone first, then the roles in
/// their order, then the users in theirs.
pub open spec fn targets_of(everyone: bool, roles: Seq<u64>, users: Seq<u64>) -> Seq<PingTarget> {
    (if everyone {
        seq![PingTarget::Everyone]
    } else {
        Seq::empty()
    }) + roles.map_values(|role: u64| PingTarget::Role(role)) + users.map_values(
        |user: u64| PingTarget::User(user),
    )
}

/// The mentions of a message that the bot records, in the order in which it
/// records them.
pub fn ping_targets(everyone: bool, roles: &Vec<u64>, users: &Vec<u64>) -> (targets: Vec<
    PingTarget,
>)
    ensures
        targets@ == targets_of(everyone, roles@, users@),
{
    let mut targets: Vec<PingTarget> = Vec::new();
    if everyone {
        targets.push(PingTarget::Everyone);
    }
    let ghost head = targets@;
    let mut at: usize = 0;
    while at < roles.len()
        invariant
            at <= roles@.len(),
            targets@ == head + roles@.take(at as int).map_values(|role: u64| PingTarget::Role(role)),
        decreases roles@.len() - at,
    {
        targets.push(PingTarget::Role(roles[at]));
        at += 1;
        assert(targets@ =~= head + roles@.take(at as int).map_values(
            |role: u64| PingTarget::Role(role),
        ));
    }
    assert(roles@.take(roles@.len() as int) =~= roles@);
    let ghost middle = targets@;
    at = 0;
    while at < users.len()
        invariant
            at <= users@.len(),
            targets@ == middle + users@.take(at as int).map_values(
                |user: u64| PingTarget::User(user),
            ),
        decreases users@.len() - at,
    {
        targets.push(PingTarget::User(users[at]));
        at += 1;
        assert(targets@ =~= middle + users@.take(at as int).map_values(
            |user: u64| PingTarget::User(user),
        ));
    }
    assert(users@.take(users@.len() as int) =~= users@);
    assert(targets@ =~= targets_of(everyone, roles@, users@));
    targets
}

} // verus!
