//! The directory of a guild's members: reading it from comma-separated
//! values, and the wording of what the bot says about a member.

use crate::decimal::{decimal, decimal_string};
use crate::error_with_reason::ErrorWithReason;
use crate::pattern::{
    first_match, found_text, groups, regex_find, regex_groups, regex_split, split,
};
use crate::serde_conversions::lookup;
use crate::string_map::{
    distinct_keys, entries_view, lists_key, place_of, same_text, with_entry, StringMap,
};
use crate::table::{csv_header_row, csv_headers, csv_record_rows, csv_records, row_view, rows_view};
use crate::text::{byte_len, text_values, text_view, texts, utf8_len};
use vstd::prelude::*;

verus! {

/// The pattern of a user's number in what somebody typed.
pub const USER_ID: &'static str = "\\d+";

/// The pattern of a place in a display form that a field's value fills.
pub const DISPLAY_FIELD: &'static str = "\\{\\{(.+?)\\}\\}";

/// The display form of a guild that has set none.
pub const DEFAULT_DISPLAY: &'static str = "<@{{_user}}>";

/// The name of the column that holds the users' numbers, where none is
/// given or remembered.
pub const DEFAULT_ID_FIELD: &'static str = "ID";

/// What the bot says where a command for guilds is used outside of one.
pub const NOT_IN_SERVER: &'static str = "You aren't in a server.";

/// The user that `search` names by number: the first run of digits in it.
pub fn user_id_in(search: &str) -> (id: Option<String>)
    ensures
        text_view(id) == match regex_find(USER_ID@, search@) {
            Some(found) => found,
            None => None,
        },
{
    found_text(first_match(USER_ID, search))
}

/// The line that offers the user `id` as one who may have been meant.
pub open spec fn mention_line(id: u64) -> Seq<char> {
    "<@"@ + decimal(id as nat) + "> ("@ + decimal(id as nat) + ")\n"@
}

/// The lines for `ids`, in order, after `shown`, as far as they fit: the
/// lines end before the first with which they would take more than 1900
/// bytes.
pub open spec fn mention_lines(ids: Seq<u64>, shown: Seq<char>) -> Seq<char>
    decreases ids.len(),
{
    if ids.len() == 0 {
        shown
    } else if utf8_len(shown) + utf8_len(mention_line(ids[0])) > 1900 {
        shown
    } else {
        mention_lines(ids.drop_first(), shown + mention_line(ids[0]))
    }
}

/// The lines that offer the users `ids` as ones who may have been meant, as
/// far as they fit.
pub fn display_matches(ids: &Vec<u64>) -> (shown: String)
    ensures
        shown@ == mention_lines(ids@, Seq::empty()),
{
    let mut shown = String::new();
    let mut i: usize = 0;
    assert(ids@.skip(0) =~= ids@);
    while i < ids.len()
        invariant
            i <= ids@.len(),
            mention_lines(ids@, Seq::empty()) == mention_lines(ids@.skip(i as int), shown@),
        decreases ids@.len() - i,
    {
        let number = decimal_string(ids[i]);
        let line = String::from_str("<@").concat(number.as_str()).concat("> (").concat(
            number.as_str(),
        ).concat(")\n");
        proof {
            let rest = ids@.skip(i as int);
            assert(rest[0] == ids@[i as int]);
            assert(rest.drop_first() =~= ids@.skip(i + 1));
        }
        let line_len = byte_len(line.as_str());
        let shown_len = byte_len(shown.as_str());
        if line_len > 1900 || shown_len > 1900 - line_len {
            return shown;
        }
        shown.append(line.as_str());
        i += 1;
    }
    shown
}

/// Which of the ways to find the member have been tried without finding an
/// entry.
#[derive(Clone, Copy, Debug, PartialEq, Eq, Structural)]
pub struct Attempts {
    pub tried_id: bool,
    pub tried_member_match: bool,
    pub tried_first_search: bool,
}

/// A way to find the member that somebody asked about.
#[derive(Clone, Copy, Debug, PartialEq, Eq, Structural)]
pub enum Lookup {
    /// By the number in what was typed.
    UserId,
    /// By the member whose name is what was typed.
    MemberName,
    /// By the first member whose name resembles what was typed.
    FirstSearch,
}

/// `attempts` with `lookup` marked as tried.
pub open spec fn with_attempt(attempts: Attempts, lookup: Lookup) -> Attempts {
    match lookup {
        Lookup::UserId => Attempts { tried_id: true, ..attempts },
        Lookup::MemberName => Attempts { tried_member_match: true, ..attempts },
        Lookup::FirstSearch => Attempts { tried_first_search: true, ..attempts },
    }
}

/// What follows a lookup that gave a user: nothing more where the user's
/// entry was shown, and otherwise the next lookup with this one marked as
/// tried.
pub fn after_lookup(attempts: Attempts, lookup: Lookup, shown: bool) -> (next: Option<Attempts>)
    ensures
        next == if shown {
            None
        } else {
            Some(with_attempt(attempts, lookup))
        },
{
    if shown {
        None
    } else {
        Some(
            match lookup {
                Lookup::UserId => Attempts { tried_id: true, ..attempts },
                Lookup::MemberName => Attempts { tried_member_match: true, ..attempts },
                Lookup::FirstSearch => Attempts { tried_first_search: true, ..attempts },
            },
        )
    }
}

/// The text of `line` where `tried` holds, and nothing otherwise.
pub open spec fn line_if(tried: bool, line: Seq<char>) -> Seq<char> {
    if tried {
        line
    } else {
        Seq::empty()
    }
}

/// What the bot says it tried.
pub open spec fn tried_text(attempts: Attempts) -> Seq<char> {
    if attempts.tried_id || attempts.tried_member_match || attempts.tried_first_search {
        "\nI tried:"@ + line_if(attempts.tried_id, "\n- looking up the user ID/mention."@) + line_if(
            attempts.tried_member_match,
            "\n- matching the member by their exact name."@,
        ) + line_if(
            attempts.tried_first_search,
            "\n- trying the first result that somewhat resembled what you wrote."@,
        ) + "\nbut I couldn't find anyone on this server who has a whois entry.\n\n"@
    } else {
        " "@
    }
}

/// What the bot says it tried.
pub fn tried(attempts: Attempts) -> (text: String)
    ensures
        text@ == tried_text(attempts),
{
    if attempts.tried_id || attempts.tried_member_match || attempts.tried_first_search {
        let mut text = String::from_str("\nI tried:");
        if attempts.tried_id {
            text.append("\n- looking up the user ID/mention.");
        }
        if attempts.tried_member_match {
            text.append("\n- matching the member by their exact name.");
        }
        if attempts.tried_first_search {
            text.append("\n- trying the first result that somewhat resembled what you wrote.");
        }
        text.append("\nbut I couldn't find anyone on this server who has a whois entry.\n\n");
        assert(text@ =~= tried_text(attempts));
        text
    } else {
        String::from_str(" ")
    }
}

/// A message: its text and, where it has one, the description of its
/// embed.
#[derive(Debug)]
pub struct Reply {
    pub content: String,
    pub embed: Option<String>,
}

/// What the bot says where it knows nothing of the member: what it tried,
/// and, where a search gave `first_guess`, that user and the others that
/// `others` lists.
pub fn unknown_member(attempts: Attempts, first_guess: Option<u64>, others: &str) -> (reply: Reply)
    ensures
        reply.content@ == "I don't know the person you're referring to."@ + tried_text(attempts)
            + (if first_guess is Some {
            "(Hint: Have the mods done `:whois fetch`?) Perhaps I may know these other users? If so, do `:whois <user id>`."@
        } else {
            "(Hint: It might be possible the mods have not done `:whois fetch`?)"@
        }),
        text_view(reply.embed) == match first_guess {
            Some(id) => Some(
                "**<@"@ + decimal(id as nat) + "> ("@ + decimal(id as nat) + ")\n**\n"@ + others@,
            ),
            None => None,
        },
{
    let start = String::from_str("I don't know the person you're referring to.").concat(
        tried(attempts).as_str(),
    );
    match first_guess {
        Some(id) => {
            let number = decimal_string(id);
            Reply {
                content: start.concat(
                    "(Hint: Have the mods done `:whois fetch`?) Perhaps I may know these other users? If so, do `:whois <user id>`.",
                ),
                embed: Some(
                    String::from_str("**<@").concat(number.as_str()).concat("> (").concat(
                        number.as_str(),
                    ).concat(")\n**\n").concat(others),
                ),
            }
        },
        None => Reply {
            content: start.concat(
                "(Hint: It might be possible the mods have not done `:whois fetch`?)",
            ),
            embed: None,
        },
    }
}

/// The heading over a member's entry.  `other_users` lists the others that
/// may have been meant, where the member was found by a search.
pub fn entry_heading(id: &str, other_users: Option<&str>) -> (heading: String)
    ensures
        heading@ == match other_users {
            Some(others) => if others@.len() == 0 {
                "What I know about <@"@ + id@ + "> (whom I'm guessing you're referring to)"@
            } else {
                "Other users you may have meant:\n"@ + others@
                    + "\nBut here's what we know about <@"@ + id@ + ">"@
            },
            None => "What I know about <@"@ + id@ + ">"@,
        },
{
    match other_users {
        Some(others) => if others.is_empty() {
            String::from_str("What I know about <@").concat(id).concat(
                "> (whom I'm guessing you're referring to)",
            )
        } else {
            String::from_str("Other users you may have meant:\n").concat(others).concat(
                "\nBut here's what we know about <@",
            ).concat(id).concat(">")
        },
        None => String::from_str("What I know about <@").concat(id).concat(">"),
    }
}

/// What the bot says with a member's entry.
pub const ENTRY_CONTENT: &'static str = "Fresh from the FBI's kitchen!";

/// A field of an entry is shown: its name does not begin with `_`, and it
/// holds a text that is not empty.
pub open spec fn is_shown(name: Seq<char>, value: Option<Seq<char>>) -> bool {
    &&& !(name.len() > 0 && name[0] == '_')
    &&& value matches Some(text) && text.len() > 0
}

/// The names and texts of the fields among `entry` that are shown, in
/// order.
pub open spec fn shown_in(entry: Seq<(String, Option<String>)>) -> Seq<(Seq<char>, Seq<char>)>
    decreases entry.len(),
{
    if entry.len() == 0 {
        Seq::empty()
    } else if is_shown(entry.last().0@, text_view(entry.last().1)) {
        shown_in(entry.drop_last()).push((entry.last().0@, entry.last().1->Some_0@))
    } else {
        shown_in(entry.drop_last())
    }
}

/// The names and texts of `fields`.
pub open spec fn pairs_view(fields: Seq<(String, String)>) -> Seq<(Seq<char>, Seq<char>)> {
    fields.map_values(|field: (String, String)| (field.0@, field.1@))
}

/// The fields of an entry that are shown.  `entry` holds the fields as the
/// database has them, each with its text where it holds one.
pub fn shown_fields(entry: &Vec<(String, Option<String>)>) -> (fields: Vec<(String, String)>)
    ensures
        pairs_view(fields@) == shown_in(entry@),
{
    let mut fields: Vec<(String, String)> = Vec::new();
    let mut i: usize = 0;
    assert(entry@.take(0) =~= Seq::empty());
    assert(pairs_view(fields@) =~= shown_in(entry@.take(0)));
    while i < entry.len()
        invariant
            i <= entry@.len(),
            pairs_view(fields@) == shown_in(entry@.take(i as int)),
        decreases entry@.len() - i,
    {
        let name = &entry[i].0;
        let hidden = !name.as_str().is_empty() && name.as_str().get_char(0) == '_';
        proof {
            let more = entry@.take(i + 1);
            assert(more.drop_last() =~= entry@.take(i as int));
            assert(more.last() == entry@[i as int]);
        }
        let ghost before = fields@;
        if !hidden {
            match &entry[i].1 {
                Some(text) => {
                    if !text.as_str().is_empty() {
                        fields.push((name.clone(), text.clone()));
                        assert(pairs_view(fields@) =~= pairs_view(before).push((name@, text@)));
                    }
                },
                None => {},
            }
        }
        i += 1;
    }
    assert(entry@.take(entry@.len() as int) =~= entry@);
    fields
}

/// What stands for a user that the directory does not know.
pub fn unknown_user(id: &str) -> (text: String)
    ensures
        text@ == "[<@"@ + id@ + "> not known]"@,
{
    String::from_str("[<@").concat(id).concat("> not known]")
}

/// What fills a place that names the field `name`: the field's text, and
/// nothing where the entry has no such text.  A place without a name counts
/// as one with the empty name.
pub open spec fn place_text(name: Option<Seq<char>>, fields: Map<Seq<char>, Seq<char>>) -> Seq<
    char,
> {
    let field = match name {
        Some(text) => text,
        None => Seq::empty(),
    };
    match lookup(fields, field) {
        Some(text) => text,
        None => Seq::empty(),
    }
}

/// The `pieces` in order, each but the last followed by what fills the
/// next of the places `names`.
pub open spec fn woven(
    pieces: Seq<Seq<char>>,
    names: Seq<Option<Seq<char>>>,
    fields: Map<Seq<char>, Seq<char>>,
) -> Seq<char>
    decreases pieces.len(),
{
    if pieces.len() == 0 {
        Seq::empty()
    } else if 2 <= pieces.len() <= names.len() + 1 {
        woven(pieces.drop_last(), names, fields) + place_text(
            names[pieces.len() - 2],
            fields,
        ) + pieces.last()
    } else {
        woven(pieces.drop_last(), names, fields) + pieces.last()
    }
}

/// The display form `form` with each of its places filled from `fields`.
pub open spec fn filled(form: Seq<char>, fields: Map<Seq<char>, Seq<char>>) -> Seq<char> {
    match (regex_split(DISPLAY_FIELD@, form), regex_groups(DISPLAY_FIELD@, 1, form)) {
        (Some(pieces), Some(names)) => woven(pieces, names, fields),
        _ => form,
    }
}

/// The characters of each name in `names`.
pub open spec fn names_view(names: Seq<Option<String>>) -> Seq<Option<Seq<char>>> {
    names.map_values(|name: Option<String>| text_view(name))
}

/// The `pieces` in order, each but the last followed by what fills the
/// next of the places `names`.
pub fn weave(pieces: &Vec<String>, names: &Vec<Option<String>>, fields: &StringMap<String>) -> (text:
    String)
    ensures
        text@ == woven(texts(pieces@), names_view(names@), text_values(fields@)),
{
    let mut text = String::new();
    let mut i: usize = 0;
    assert(texts(pieces@).take(0) =~= Seq::empty());
    while i < pieces.len()
        invariant
            i <= pieces@.len(),
            text@ == woven(
                texts(pieces@).take(i as int),
                names_view(names@),
                text_values(fields@),
            ),
        decreases pieces@.len() - i,
    {
        proof {
            let more = texts(pieces@).take(i + 1);
            assert(more.drop_last() =~= texts(pieces@).take(i as int));
            assert(more.last() == pieces@[i as int]@);
        }
        if i > 0 && i - 1 < names.len() {
            let field = match &names[i - 1] {
                Some(name) => name.as_str(),
                None => "",
            };
            proof {
                reveal_strlit("");
                assert(""@ =~= Seq::<char>::empty());
            }
            match fields.get(field) {
                Some(value) => {
                    text.append(value.as_str());
                },
                None => {
                    assert(text@ + Seq::<char>::empty() =~= text@);
                },
            }
        }
        text.append(pieces[i].as_str());
        i += 1;
    }
    assert(texts(pieces@).take(pieces@.len() as int) =~= texts(pieces@));
    text
}

/// The display form `form` with each place `{{name}}` filled with the text
/// of the entry's field `name`.
pub fn fill_template(form: &str, fields: &StringMap<String>) -> (text: String)
    ensures
        text@ == filled(form@, text_values(fields@)),
{
    let pieces = split(DISPLAY_FIELD, form);
    let names = groups(DISPLAY_FIELD, 1, form);
    match (pieces, names) {
        (Some(pieces), Some(names)) => {
            assert(names_view(names@) =~= crate::pattern::groups_view(Some(names))->Some_0);
            weave(&pieces, &names, fields)
        },
        _ => form.to_owned(),
    }
}

/// The most bytes that the introductions may take: 2000 less 5.
pub const HERE_LIMIT: usize = 1995;

/// The bytes that are taken once `display` is shown after `total` bytes,
/// one byte more than its own; nothing where it does not fit under 1995
/// bytes in all.
pub open spec fn room(total: int, display: Seq<char>) -> Option<int> {
    if total + utf8_len(display) + 1 < HERE_LIMIT {
        Some(total + utf8_len(display) + 1)
    } else {
        None
    }
}

/// The displays that are shown, oldest message last in `displays`: those
/// that fit, and after them a mark where one did not fit.
pub open spec fn introduced(displays: Seq<Seq<char>>, total: int) -> Seq<Seq<char>>
    decreases displays.len(),
{
    if displays.len() == 0 {
        Seq::empty()
    } else {
        match room(total, displays[0]) {
            Some(taken) => seq![displays[0]] + introduced(displays.drop_first(), taken),
            None => seq!["[...]"@],
        }
    }
}

/// The bytes that are taken once `display` is shown after `total` bytes;
/// nothing where it does not fit.
pub fn room_after(total: usize, display: &str) -> (taken: Option<usize>)
    ensures
        match taken {
            Some(bytes) => room(total as int, display@) == Some(bytes as int),
            None => room(total as int, display@) is None,
        },
{
    let len = byte_len(display);
    if total < HERE_LIMIT - 1 && len < HERE_LIMIT - 1 - total {
        Some(total + len + 1)
    } else {
        None
    }
}

/// `list` from its last string to its first.
pub fn reversed(list: &Vec<String>) -> (turned: Vec<String>)
    ensures
        texts(turned@) == texts(list@).reverse(),
{
    let mut turned: Vec<String> = Vec::new();
    let mut i: usize = list.len();
    while i > 0
        invariant
            i <= list@.len(),
            turned@.len() == list@.len() - i,
            forall|j: int| 0 <= j < turned@.len() ==> (#[trigger] turned@[j])@ == list@[list@.len() - 1 - j]@,
        decreases i,
    {
        i -= 1;
        turned.push(list[i].clone());
    }
    assert(texts(turned@) =~= texts(list@).reverse());
    turned
}

/// The text that introduces the authors of the last messages.  `displays`
/// holds what stands for each author, newest message first; the text lists
/// them oldest first, one to a line.
pub fn introductions(displays: &Vec<String>) -> (text: String)
    ensures
        text@ == crate::text::joined(introduced(texts(displays@), 0).reverse(), "\n"@),
{
    let mut names: Vec<String> = Vec::new();
    let mut total: usize = 0;
    let mut i: usize = 0;
    assert(texts(displays@).skip(0) =~= texts(displays@));
    assert(texts(names@) + introduced(texts(displays@), 0) =~= introduced(texts(displays@), 0));
    while i < displays.len()
        invariant_except_break
            introduced(texts(displays@), 0) == texts(names@) + introduced(
                texts(displays@).skip(i as int),
                total as int,
            ),
        invariant
            i <= displays@.len(),
        ensures
            introduced(texts(displays@), 0) == texts(names@),
        decreases displays@.len() - i,
    {
        let ghost before = names@;
        proof {
            let rest = texts(displays@).skip(i as int);
            assert(rest[0] == displays@[i as int]@);
            assert(rest.drop_first() =~= texts(displays@).skip(i + 1));
        }
        match room_after(total, displays[i].as_str()) {
            Some(taken) => {
                total = taken;
                names.push(displays[i].clone());
                assert(texts(names@) =~= texts(before) + seq![displays@[i as int]@]);
                proof {
                    if i + 1 >= displays@.len() {
                        assert(texts(displays@).skip(i + 1) =~= Seq::empty());
                        assert(texts(names@) + Seq::<Seq<char>>::empty() =~= texts(names@));
                    }
                }
            },
            None => {
                names.push(String::from_str("[...]"));
                assert(texts(names@) =~= texts(before) + seq!["[...]"@]);
                break ;
            },
        }
        i += 1;
    }
    let turned = reversed(&names);
    crate::text::join(&turned, "\n")
}

/// What the bot says before it introduces the authors.
pub const HERE_CONTENT: &'static str = "Here, allow me to introduce you:";

/// How many messages `here` looks at where no number is given.
pub const DEFAULT_HERE_LIMIT: u64 = 5;

/// The column that holds the users' numbers: the one that was `given`, or
/// else the one that the guild has `remembered`, or else the usual one.
pub fn choose_id_field(given: Option<String>, remembered: Option<String>) -> (field: String)
    ensures
        field@ == match given {
            Some(text) => text@,
            None => match remembered {
                Some(text) => text@,
                None => DEFAULT_ID_FIELD@,
            },
        },
{
    match given {
        Some(text) => text,
        None => match remembered {
            Some(text) => text,
            None => String::from_str(DEFAULT_ID_FIELD),
        },
    }
}

/// What the bot says where no address was given and none is remembered.
pub const NO_URL: &'static str =
    "I don't remember the last URL you used, so you'll have to specify it.";

/// The address to fetch the directory from: the one that was `given`, or
/// else the one that the guild has `remembered`; nothing where there is
/// neither.
pub fn choose_url(given: Option<String>, remembered: Option<String>) -> (url: Option<String>)
    ensures
        text_view(url) == match given {
            Some(text) => Some(text@),
            None => text_view(remembered),
        },
{
    match given {
        Some(text) => Some(text),
        None => remembered,
    }
}

/// The user that a row of the directory is about.
#[derive(Debug)]
pub enum UserKey {
    /// The user whose number is this text.
    Text(String),
    /// The number of the guild itself, which every row carries under
    /// `_guild`.
    Guild,
}

/// A row of the directory: its cells by the names of their columns, and the
/// user that it is about.
#[derive(Debug)]
pub struct WhoisRow {
    pub fields: StringMap<String>,
    pub user: UserKey,
}

/// Why the directory could not be read.
#[derive(Debug)]
pub enum FetchError {
    /// The text is not in comma-separated values.
    Csv(csv::Error),
    /// A row says nothing of its user.
    Reason(ErrorWithReason),
}

/// The first `count` cells of a row, by the names of their columns.  Where
/// two columns have one name, the later cell stands.
pub open spec fn zipped(headers: Seq<Seq<char>>, cells: Seq<Seq<char>>, count: int) -> Map<
    Seq<char>,
    Seq<char>,
>
    decreases count,
{
    if count <= 0 {
        Map::empty()
    } else {
        zipped(headers, cells, count - 1).insert(headers[count - 1], cells[count - 1])
    }
}

/// The cells of a row by the names of their columns, as far as there are
/// both a cell and a name.
pub open spec fn row_fields(headers: Seq<Seq<char>>, cells: Seq<Seq<char>>) -> Map<
    Seq<char>,
    Seq<char>,
> {
    zipped(
        headers,
        cells,
        if headers.len() <= cells.len() {
            headers.len() as int
        } else {
            cells.len() as int
        },
    )
}

/// The first `count` cells of a row with the names of their columns, each
/// column in the place where its name first stands.
pub open spec fn zipped_order(headers: Seq<Seq<char>>, cells: Seq<Seq<char>>, count: int) -> Seq<
    (Seq<char>, Seq<char>),
>
    decreases count,
{
    if count <= 0 {
        Seq::empty()
    } else {
        with_entry(zipped_order(headers, cells, count - 1), headers[count - 1], cells[count - 1])
    }
}

/// The cells of a row with the names of their columns, in the order of the
/// columns.
pub open spec fn row_order(headers: Seq<Seq<char>>, cells: Seq<Seq<char>>) -> Seq<
    (Seq<char>, Seq<char>),
> {
    zipped_order(
        headers,
        cells,
        if headers.len() <= cells.len() {
            headers.len() as int
        } else {
            cells.len() as int
        },
    )
}

/// The entries of `order`, each value by its characters.
pub open spec fn text_order(order: Seq<(Seq<char>, String)>) -> Seq<(Seq<char>, Seq<char>)> {
    order.map_values(|entry: (Seq<char>, String)| (entry.0, entry.1@))
}

/// Putting an entry into a list and then reading the texts gives what
/// putting the entry's text into the list of texts gives.
pub proof fn lemma_text_order_put(list: Seq<(String, String)>, key: Seq<char>, value: String)
    requires
        distinct_keys(list),
    ensures
        text_order(with_entry(entries_view(list), key, value)) == with_entry(
            text_order(entries_view(list)),
            key,
            value@,
        ),
{
    let order = entries_view(list);
    let read = text_order(order);
    if lists_key(order, key) {
        let i = place_of(order, key);
        assert(read[i].0 == key);
        let j = place_of(read, key);
        assert(0 <= j < read.len() && read[j].0 == key);
        assert(order[j].0 == key);
        if i < j {
            assert(list[i].0@ != list[j].0@);
        } else if j < i {
            assert(list[j].0@ != list[i].0@);
        }
        assert(text_order(order.update(i, (key, value))) =~= read.update(i, (key, value@)));
    } else {
        if lists_key(read, key) {
            let j = place_of(read, key);
            assert(order[j].0 == key);
        }
        assert(text_order(order.push((key, value))) =~= read.push((key, value@)));
    }
}

/// The user of a row: the text in the column `id_field`; the guild's own
/// number where there is no such column and `id_field` is `_guild`; and none
/// otherwise.
pub open spec fn user_in(fields: Map<Seq<char>, Seq<char>>, id_field: Seq<char>) -> Option<
    Option<Seq<char>>,
> {
    if fields.contains_key(id_field) {
        Some(Some(fields[id_field]))
    } else if id_field == "_guild"@ {
        Some(None)
    } else {
        None
    }
}

/// The text of the user's number, where the user is no guild.
pub open spec fn user_view(user: UserKey) -> Option<Seq<char>> {
    match user {
        UserKey::Text(text) => Some(text@),
        UserKey::Guild => None,
    }
}

/// What the bot says of the row with the number `row` where it says nothing
/// of its user.
pub open spec fn missing_id(row: int, id_field: Seq<char>) -> Seq<char> {
    "Row "@ + decimal(row as nat) + " does not have a value for "@ + id_field
}

/// `row` is the row with the cells `cells` under the columns `headers`.
pub open spec fn describes(
    row: WhoisRow,
    headers: Seq<Seq<char>>,
    cells: Seq<Seq<char>>,
    id_field: Seq<char>,
) -> bool {
    &&& text_values(row.fields@) == row_fields(headers, cells)
    &&& text_order(row.fields.order()) == row_order(headers, cells)
    &&& user_in(row_fields(headers, cells), id_field) == Some(user_view(row.user))
}

/// `row` is the row that the record `record` makes under the columns
/// `headers`.
pub open spec fn is_row_of(
    row: WhoisRow,
    headers: Seq<Seq<char>>,
    record: Option<Seq<Seq<char>>>,
    id_field: Seq<char>,
) -> bool {
    record matches Some(cells) && describes(row, headers, cells, id_field)
}

/// The record `record` makes a row: it was read without error, and it has a
/// user.
pub open spec fn makes_row(
    headers: Seq<Seq<char>>,
    record: Option<Seq<Seq<char>>>,
    id_field: Seq<char>,
) -> bool {
    record matches Some(cells) && user_in(row_fields(headers, cells), id_field) is Some
}

/// `at` is the first of `records` that makes no row.
pub open spec fn first_bad(
    headers: Seq<Seq<char>>,
    records: Seq<Option<Seq<Seq<char>>>>,
    id_field: Seq<char>,
    at: int,
) -> bool {
    &&& 0 <= at < records.len()
    &&& !makes_row(headers, records[at], id_field)
    &&& forall|before: int|
        0 <= before < at ==> makes_row(headers, #[trigger] records[before], id_field)
}

/// `outcome` is what reading `records` under the columns `headers` comes
/// to: the row of each record, in order, where every record makes a row;
/// and otherwise the error of the first that makes none, which is the
/// error met in reading it, or the complaint that it has no user.
pub open spec fn reads_as(
    outcome: Result<Vec<WhoisRow>, FetchError>,
    headers: Seq<Seq<char>>,
    records: Seq<Option<Seq<Seq<char>>>>,
    id_field: Seq<char>,
) -> bool {
    match outcome {
        Ok(rows) => rows@.len() == records.len() && forall|at: int|
            0 <= at < rows@.len() ==> is_row_of(#[trigger] rows@[at], headers, records[at], id_field),
        Err(error) => exists|at: int| #[trigger]
            first_bad(headers, records, id_field, at) && match error {
                FetchError::Csv(_) => records[at] is None,
                FetchError::Reason(reason) => records[at] is Some && reason.0@ == missing_id(
                    at + 1,
                    id_field,
                ),
            },
    }
}

/// The row with the cells `cells` under the columns `headers`; nothing
/// where it has no user.
pub fn whois_row(headers: &Vec<String>, cells: &Vec<String>, id_field: &str) -> (row: Option<
    WhoisRow,
>)
    ensures
        match row {
            Some(found) => describes(found, texts(headers@), texts(cells@), id_field@),
            None => user_in(row_fields(texts(headers@), texts(cells@)), id_field@) is None,
        },
{
    let count = if headers.len() <= cells.len() {
        headers.len()
    } else {
        cells.len()
    };
    let mut fields: StringMap<String> = StringMap::new();
    let mut i: usize = 0;
    assert(text_values(fields@) =~= zipped(texts(headers@), texts(cells@), 0));
    assert(text_order(fields.order()) =~= zipped_order(texts(headers@), texts(cells@), 0));
    while i < count
        invariant
            i <= count,
            count <= headers@.len(),
            count <= cells@.len(),
            distinct_keys(fields.listing()),
            text_values(fields@) == zipped(texts(headers@), texts(cells@), i as int),
            text_order(fields.order()) == zipped_order(texts(headers@), texts(cells@), i as int),
        decreases count - i,
    {
        let ghost before = fields@;
        let ghost listed = fields.listing();
        let cell = cells[i].clone();
        proof {
            lemma_text_order_put(listed, headers@[i as int]@, cell);
        }
        fields.insert(headers[i].clone(), cell);
        assert(text_values(fields@) =~= text_values(before).insert(
            headers@[i as int]@,
            cells@[i as int]@,
        ));
        i += 1;
    }
    let user = match fields.get(id_field) {
        Some(text) => UserKey::Text(text.clone()),
        None => {
            if same_text(id_field, "_guild") {
                UserKey::Guild
            } else {
                return None;
            }
        },
    };
    Some(WhoisRow { fields, user })
}

/// The rows of the directory.  `records` holds what was read for each row
/// after the first.  The first of them that was read with an error, or that
/// has no user, ends the reading with that error.
pub fn whois_rows(
    headers: &Vec<String>,
    records: Vec<Result<Vec<String>, csv::Error>>,
    id_field: &str,
) -> (outcome: Result<Vec<WhoisRow>, FetchError>)
    ensures
        reads_as(outcome, texts(headers@), rows_view(records@), id_field@),
        outcome matches Err(FetchError::Csv(inner)) ==> records@.contains(
            Err::<Vec<String>, csv::Error>(inner),
        ),
{
    let ghost all = records@;
    let ghost read = rows_view(records@);
    let total = records.len();
    let mut rows: Vec<WhoisRow> = Vec::with_capacity(total);
    for record in it: records.into_iter()
        invariant
            it.seq() == all,
            read == rows_view(all),
            all.len() == total,
            rows@.len() == it.index(),
            forall|at: int|
                0 <= at < rows@.len() ==> is_row_of(
                    #[trigger] rows@[at],
                    texts(headers@),
                    read[at],
                    id_field@,
                ),
    {
        let ghost at = it.index();
        assert(at < all.len());
        assert(read[at] == row_view(record));
        assert forall|before: int| 0 <= before < at implies makes_row(
            texts(headers@),
            #[trigger] read[before],
            id_field@,
        ) by {
            assert(is_row_of(rows@[before], texts(headers@), read[before], id_field@));
        }
        match record {
            Ok(cells) => match whois_row(headers, &cells, id_field) {
                Some(row) => {
                    rows.push(row);
                },
                None => {
                    let number = rows.len() + 1;
                    let reason = String::from_str("Row ").concat(
                        decimal_string(number as u64).as_str(),
                    ).concat(" does not have a value for ").concat(id_field);
                    assert(first_bad(texts(headers@), read, id_field@, at));
                    return Err(FetchError::Reason(ErrorWithReason(reason)));
                },
            },
            Err(inner) => {
                assert(first_bad(texts(headers@), read, id_field@, at));
                assert(all[at] == Err::<Vec<String>, csv::Error>(inner));
                return Err(FetchError::Csv(inner));
            },
        }
    }
    Ok(rows)
}

/// What is read from the text `csv`: the names of its columns and, for each
/// row after them, its cells or the error met in reading it.
#[derive(Debug)]
pub struct Table {
    pub headers: Vec<String>,
    pub records: Vec<Result<Vec<String>, csv::Error>>,
}

/// Reads `csv` as comma-separated values.  Where the first row cannot be
/// read, the error met is returned.
pub fn read_table(csv: &str) -> (outcome: Result<Table, FetchError>)
    ensures
        match outcome {
            Ok(table) => csv_header_row(csv@) == Some(texts(table.headers@)) && rows_view(
                table.records@,
            ) == csv_record_rows(csv@),
            Err(error) => csv_header_row(csv@) is None && error is Csv,
        },
{
    match csv_headers(csv) {
        Ok(headers) => Ok(Table { headers, records: csv_records(csv) }),
        Err(error) => Err(FetchError::Csv(error)),
    }
}

/// The rows of the directory that the text `csv` spells, each with the user
/// that the column `id_field` gives.  Where the first row cannot be read,
/// the error met is returned.
pub fn fetch_rows(csv: &str, id_field: &str) -> (outcome: Result<Vec<WhoisRow>, FetchError>)
    ensures
        match csv_header_row(csv@) {
            Some(headers) => reads_as(outcome, headers, csv_record_rows(csv@), id_field@),
            None => outcome matches Err(FetchError::Csv(_)),
        },
{
    match read_table(csv) {
        Ok(table) => whois_rows(&table.headers, table.records, id_field),
        Err(error) => Err(error),
    }
}

/// Whether `name` names an option of the directory: `id`, `url` or
/// `display`.
pub fn is_option_name(name: &str) -> (valid: bool)
    ensures
        valid == (name@ == "id"@ || name@ == "url"@ || name@ == "display"@),
{
    same_text(name, "id") || same_text(name, "url") || same_text(name, "display")
}

/// What the bot says of a name that names no option.
pub const NOT_AN_OPTION: &'static str =
    "That's not a valid option name. Do `:help whois config` for a list of valid option names.";

/// What the bot says of an option that has no value.
pub const OPTION_NOT_SET: &'static str = "This option name has not been set before.";

} // verus!
