//! The commands that stand on their own: how often each command was used,
//! and who mentioned a member last.

use crate::decimal::{decimal, decimal_string, signed_decimal, signed_decimal_string};
use crate::string_map::{entries_view, with_entry, StringMap};
use crate::text::{byte_len, can_clip, clip, clipped, clips_at, replace, replaced, utf8_len};
use vstd::prelude::*;

verus! {

/// How often each command has been run since the bot woke up.
#[derive(Debug)]
pub struct CommandCounter {
    pub counts: StringMap<u64>,
}

/// The line that tells how often the command `name` was used.
pub open spec fn usage_line(name: Seq<char>, amount: u64) -> Seq<char> {
    "- "@ + name + ": "@ + decimal(amount as nat) + "\n"@
}

/// The lines for `entries`, in order.
pub open spec fn usage_lines(entries: Seq<(Seq<char>, u64)>) -> Seq<char>
    decreases entries.len(),
{
    if entries.len() == 0 {
        Seq::empty()
    } else {
        usage_lines(entries.drop_last()) + usage_line(entries.last().0, entries.last().1)
    }
}

impl CommandCounter {
    /// A counter for a bot that has run no command.
    pub fn new() -> (counter: Self)
        ensures
            counter.counts@ == Map::<Seq<char>, u64>::empty(),
            counter.counts.order() == Seq::<(Seq<char>, u64)>::empty(),
    {
        CommandCounter { counts: StringMap::new() }
    }

    /// How often the command `name` has been run.
    pub open spec fn uses(&self, name: Seq<char>) -> nat {
        if self.counts@.contains_key(name) {
            self.counts@[name] as nat
        } else {
            0
        }
    }

    /// Counts one more run of the command `name`.
    pub fn record(&mut self, name: &str)
        requires
            old(self).uses(name@) < u64::MAX,
        ensures
            final(self).counts@ == old(self).counts@.insert(
                name@,
                (old(self).uses(name@) + 1) as u64,
            ),
            final(self).counts.order() == with_entry(
                old(self).counts.order(),
                name@,
                (old(self).uses(name@) + 1) as u64,
            ),
    {
        let count = match self.counts.get(name) {
            Some(found) => *found,
            None => 0,
        };
        self.counts.insert(name.to_owned(), count + 1);
    }

    /// The list of the commands that were used, each with the number of its
    /// runs, in the order in which they were first run.
    pub fn listing(&self) -> (text: String)
        ensures
            text@ == "Commands used since last restart:\n"@ + usage_lines(self.counts.order()),
    {
        let entries = self.counts.entries();
        let ghost order = entries_view(entries@);
        let mut text = String::from_str("Commands used since last restart:\n");
        let mut at: usize = 0;
        assert(order.take(0) =~= Seq::empty());
        assert(text@ =~= "Commands used since last restart:\n"@ + usage_lines(order.take(0)));
        while at < entries.len()
            invariant
                at <= entries@.len(),
                order == entries_view(entries@),
                text@ == "Commands used since last restart:\n"@ + usage_lines(order.take(at as int)),
            decreases entries@.len() - at,
        {
            let ghost before = text@;
            proof {
                let more = order.take(at + 1);
                assert(more.drop_last() =~= order.take(at as int));
                assert(more.last() == (entries@[at as int].0@, entries@[at as int].1));
            }
            text.append("- ");
            text.append(entries[at].0.as_str());
            text.append(": ");
            text.append(decimal_string(entries[at].1).as_str());
            text.append("\n");
            assert(text@ =~= before + usage_line(entries@[at as int].0@, entries@[at as int].1));
            at += 1;
        }
        assert(order.take(order.len() as int) =~= order);
        text
    }
}

/// What the bot says of itself.
pub const ABOUT_CONTENT: &'static str =
    "Hi! I'm Moofy (he, him, etc.), running ornery-bot 1.0, made with Serenity 0.9 in Rust.";

/// The heading over what the bot links to.
pub const ABOUT_TITLE: &'static str = "Links";

/// What the bot links to.
pub const ABOUT_LINKS: &'static str =
    "Like any good bot, I am proudly open-sourced on [Github](https://github.com/SheepTester/ornery-bot).\n\nIf you really want me on your server, here's [my invite link](https://discord.com/api/oauth2/authorize?client_id=393248490739859458&scope=bot).\n\nCheck out my bot buddy, [RBot](https://github.com/ky28059/RBot/)!";

/// What the bot answers to a ping.
pub const PONG: &'static str = "PONG.";

/// What the bot says to one who may administer the guild, and to one who
/// may not.
pub fn admin_reply(is_admin: bool) -> (text: &'static str)
    ensures
        text@ == if is_admin {
            "Yes, you are."@
        } else {
            "No, you are not."@
        },
{
    if is_admin {
        "Yes, you are."
    } else {
        "No, you are not."
    }
}

/// What the bot says where it cannot get at the manager of its connections.
pub const NO_SHARD_MANAGER: &'static str = "There was a problem getting the shard manager";

/// What the bot says where it does not find its connection.
pub const NO_SHARD: &'static str = "No shard found";

/// The heading over the last mentions.
pub const PINGS_TITLE: &'static str = "Who DARED to ping thee?";

/// What the bot says with the last mentions.
pub const PINGS_CONTENT: &'static str =
    "Tip: Discord has an inbox (ctrl/command + i) with a list of your past mentions.";

/// The most bytes of a message that are shown: 2000 less 70.
pub const PING_LIMIT: usize = 1930;

/// `content` with a space of no width put into each `](`, so that no text
/// hides in the address of a link.
pub open spec fn unlinked(content: Seq<char>) -> Seq<char> {
    replaced(content, "]("@, "]\u{200b}("@)
}

/// The message `content` as it is shown: made safe, and cut after 1930
/// bytes where it takes that many or more.
pub open spec fn ping_text(content: Seq<char>) -> Seq<char> {
    if utf8_len(unlinked(content)) < PING_LIMIT {
        unlinked(content)
    } else {
        clipped(unlinked(content), PING_LIMIT as int)
    }
}

/// The message `content` can be shown: where it takes 1930 bytes or more
/// once made safe, no character lies across the end of the first 1930.
pub open spec fn can_show(content: Seq<char>) -> bool {
    utf8_len(unlinked(content)) >= PING_LIMIT ==> can_clip(unlinked(content), PING_LIMIT as int)
}

/// `content` with a space of no width put into each `](`.
pub fn unlink(content: &str) -> (safe: String)
    ensures
        safe@ == unlinked(content@),
{
    proof {
        reveal_strlit("](");
    }
    replace(content, "](", "]\u{200b}(")
}

/// The message `content` as it is shown.
pub fn trimmed_content(content: &str) -> (shown: String)
    requires
        can_show(content@),
    ensures
        shown@ == ping_text(content@),
{
    let safe = unlink(content);
    if byte_len(safe.as_str()) < PING_LIMIT {
        safe
    } else {
        String::from_str(clip(safe.as_str(), PING_LIMIT))
    }
}

/// The message `content` as it is shown; nothing where it cannot be shown.
pub fn shown_content(content: &str) -> (shown: Option<String>)
    ensures
        match shown {
            Some(text) => can_show(content@) && text@ == ping_text(content@),
            None => !can_show(content@),
        },
{
    let safe = unlink(content);
    if byte_len(safe.as_str()) < PING_LIMIT || clips_at(safe.as_str(), PING_LIMIT) {
        Some(trimmed_content(content))
    } else {
        None
    }
}

/// The heading over a mention: of everyone where the record is one of a
/// mention of everyone, and else of the member where it is one of the
/// member.  A record of neither gets none and is not shown.
pub fn ping_title(everyone: bool, user: bool) -> (title: Option<&'static str>)
    ensures
        match title {
            Some(text) => (everyone || user) && text@ == if everyone {
                "Last @everyone"@
            } else {
                "Last direct @mention"@
            },
            None => !everyone && !user,
        },
{
    if everyone {
        Some("Last @everyone")
    } else if user {
        Some("Last direct @mention")
    } else {
        None
    }
}

/// A mention as the database records it.
pub struct PastPing {
    /// Who wrote the message.
    pub author: i64,
    /// The channel of the message.
    pub channel: i64,
    /// The message.
    pub message: i64,
}

/// What the bot shows of a mention in the guild `guild`: who wrote the
/// message, as a link to it, and under it the message's text `shown`.
pub fn ping_value(guild: u64, ping: &PastPing, shown: &str) -> (value: String)
    ensures
        value@ == "[<@"@ + signed_decimal(ping.author as int)
            + "> pinged you](https://discord.com/channels/"@ + decimal(guild as nat) + "/"@
            + signed_decimal(ping.channel as int) + "/"@ + signed_decimal(ping.message as int)
            + ")\n\n"@ + shown@,
{
    String::from_str("[<@").concat(signed_decimal_string(ping.author).as_str()).concat(
        "> pinged you](https://discord.com/channels/",
    ).concat(decimal_string(guild).as_str()).concat("/").concat(
        signed_decimal_string(ping.channel).as_str(),
    ).concat("/").concat(signed_decimal_string(ping.message).as_str()).concat(")\n\n").concat(shown)
}

} // verus!
