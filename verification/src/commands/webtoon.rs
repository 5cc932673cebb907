//! The web comics that a guild follows: what may be added, what a comic's
//! page tells, and the wording of the bot's replies.

use crate::chance::pick;
use crate::error_with_reason::ErrorWithReason;
use crate::page::{
    first_attr, first_text, html_first_attr, html_first_text, html_items, items, items_view,
    FoundItem, FoundItemView, ItemLooks, ItemLooksView,
};
use crate::pattern::{is_found, is_match, regex_is_match};
use crate::text::{byte_len, can_clip, clip, clipped, clips_at, join, joined, text_view, texts, utf8_len};
use vstd::prelude::*;

verus! {

/// The pattern of a short name: letters, digits, underscores and hyphens.
pub const VALID_ID: &'static str = "^[\\w-]+$";

/// The pattern of an address at the web comics' site.
pub const VALID_URL: &'static str = "^https?://(\\w+\\.)?webtoons.com/";

/// What the bot says of a short name that is none.
pub const BAD_ID: &'static str =
    "The given ID has too many special characters. Please just stick to letters, numbers, and hyphens.";

/// What the bot says of an address that is not at the web comics' site.
pub const BAD_URL: &'static str = "The given \"URL\" doesn't seem to be a Webtoons URL.";

/// `text` matches `pattern`.
pub open spec fn matches(pattern: Seq<char>, text: Seq<char>) -> bool {
    regex_is_match(pattern, false, text) == Some(true)
}

/// Whether a web comic may be added, where `id_fits` tells whether its short
/// name is one and `url_fits` whether its address is at the web comics'
/// site.  The short name is looked at first.
pub fn new_webtoon_outcome(id_fits: bool, url_fits: bool) -> (outcome: Result<(), ErrorWithReason>)
    ensures
        match outcome {
            Ok(_) => id_fits && url_fits,
            Err(error) => if !id_fits {
                error.0@ == BAD_ID@
            } else {
                !url_fits && error.0@ == BAD_URL@
            },
        },
{
    if !id_fits {
        Err(ErrorWithReason::from(BAD_ID))
    } else if !url_fits {
        Err(ErrorWithReason::from(BAD_URL))
    } else {
        Ok(())
    }
}

/// Whether a web comic may be added under the short name `id` with the
/// address `url`: the short name is one, and the address is at the web
/// comics' site.  The short name is looked at first.
pub fn check_new_webtoon(id: &str, url: &str) -> (outcome: Result<(), ErrorWithReason>)
    ensures
        match outcome {
            Ok(_) => matches(VALID_ID@, id@) && matches(VALID_URL@, url@),
            Err(error) => if !matches(VALID_ID@, id@) {
                error.0@ == BAD_ID@
            } else {
                !matches(VALID_URL@, url@) && error.0@ == BAD_URL@
            },
        },
{
    new_webtoon_outcome(
        is_found(is_match(VALID_ID, false, id)),
        is_found(is_match(VALID_URL, false, url)),
    )
}

/// What the bot says of a short name that is taken.
pub fn already_exists(id: &str) -> (text: String)
    ensures
        text@ == "A Webtoon with the given ID already exists! Try it: `:webtoon check "@ + id@
            + "`"@,
{
    String::from_str("A Webtoon with the given ID already exists! Try it: `:webtoon check ").concat(
        id,
    ).concat("`")
}

/// What the bot says where nothing was there to delete.
pub const NOTHING_DELETED: &'static str =
    "I didn't delete anything since there was nothing to delete.";

/// What the bot says where one web comic was deleted.
pub const ONE_DELETED: &'static str = "The Webtoon has been deleted. 😢";

/// What the bot says where more than one web comic was deleted.
pub const MANY_DELETED: &'static str =
    "Strangely, I deleted more than one Webtoon with that ID. ¯\\_(ツ)_/¯";

/// What the bot says once `deleted_count` web comics have been deleted.
pub fn removal_reply(deleted_count: i64) -> (text: &'static str)
    ensures
        text@ == if deleted_count == 0 {
            NOTHING_DELETED@
        } else if deleted_count == 1 {
            ONE_DELETED@
        } else {
            MANY_DELETED@
        },
{
    if deleted_count == 0 {
        NOTHING_DELETED
    } else if deleted_count == 1 {
        ONE_DELETED
    } else {
        MANY_DELETED
    }
}

/// An episode of a web comic, as its page lists it.
#[derive(Debug)]
pub struct Episode {
    pub name: String,
    pub date: String,
    pub link: String,
    /// Whether the page marks the episode as new.
    pub up: bool,
}

/// An episode of a web comic, as plain values.
pub struct EpisodeView {
    pub name: Seq<char>,
    pub date: Seq<char>,
    pub link: Seq<char>,
    pub up: bool,
}

impl View for Episode {
    type V = EpisodeView;

    open spec fn view(&self) -> EpisodeView {
        EpisodeView { name: self.name@, date: self.date@, link: self.link@, up: self.up }
    }
}

/// What a web comic's page tells.
#[derive(Debug)]
pub struct Page {
    pub title: String,
    /// The address of the first episode's picture.
    pub first_image: Option<String>,
    /// The newest episodes, five at most.
    pub episodes: Vec<Episode>,
}

/// What stands for a title that the page does not give.
pub const NO_TITLE: &'static str = "[Couldn't get title]";

/// What stands for an episode's name that the page does not give.
pub const NO_EPISODE_NAME: &'static str = "[Couldn't get episode name]";

/// What stands for an episode's date that the page does not give.
pub const NO_EPISODE_DATE: &'static str = "[Couldn't get episode date]";

/// How many episodes the bot shows at most.
pub const SHOWN_EPISODES: usize = 5;

/// `text`, or `other` where there is none.
pub open spec fn text_or(text: Option<Seq<char>>, other: Seq<char>) -> Seq<char> {
    match text {
        Some(found) => found,
        None => other,
    }
}

/// The episode that `found` gives on the page at `url`.
pub open spec fn episode_of(found: FoundItemView, url: Seq<char>) -> EpisodeView {
    EpisodeView {
        name: text_or(found.name, NO_EPISODE_NAME@),
        date: text_or(found.date, NO_EPISODE_DATE@),
        link: text_or(found.link, url),
        up: found.marked,
    }
}

/// The episodes that the items `found` give: those of the first five.
pub open spec fn episodes_of(found: Seq<FoundItemView>, url: Seq<char>) -> Seq<EpisodeView> {
    Seq::new(
        if found.len() <= SHOWN_EPISODES {
            found.len()
        } else {
            SHOWN_EPISODES as nat
        },
        |at: int| episode_of(found[at], url),
    )
}

/// What each of `episodes` holds, as plain values.
pub open spec fn episodes_view(episodes: Seq<Episode>) -> Seq<EpisodeView> {
    episodes.map_values(|episode: Episode| episode@)
}

/// `text`, or a copy of `other` where there is none.
pub fn or_text(text: &Option<String>, other: &str) -> (chosen: String)
    ensures
        chosen@ == text_or(text_view(*text), other@),
{
    match text {
        Some(found) => found.clone(),
        None => other.to_owned(),
    }
}

/// The title of a page on which `found` was found as the title.
pub fn page_title(found: Option<String>) -> (title: String)
    ensures
        title@ == text_or(text_view(found), NO_TITLE@),
{
    match found {
        Some(title) => title,
        None => String::from_str(NO_TITLE),
    }
}

/// The episodes that the items `found` of the page at `url` give: those of
/// the first five.  What an item does not tell is filled in, its address
/// with `url`.
pub fn episodes_from(found: &Vec<FoundItem>, url: &str) -> (episodes: Vec<Episode>)
    ensures
        episodes_view(episodes@) == episodes_of(items_view(found@), url@),
{
    let mut episodes: Vec<Episode> = Vec::new();
    let mut at: usize = 0;
    while at < found.len() && at < SHOWN_EPISODES
        invariant
            at <= found@.len(),
            at <= SHOWN_EPISODES,
            episodes@.len() == at,
            forall|before: int|
                0 <= before < at ==> (#[trigger] episodes@[before])@ == episode_of(
                    found@[before]@,
                    url@,
                ),
        decreases found@.len() - at,
    {
        let item = &found[at];
        episodes.push(
            Episode {
                name: or_text(&item.name, NO_EPISODE_NAME),
                date: or_text(&item.date, NO_EPISODE_DATE),
                link: or_text(&item.link, url),
                up: item.marked,
            },
        );
        at += 1;
    }
    assert(episodes_view(episodes@) =~= episodes_of(items_view(found@), url@));
    episodes
}

/// What the bot looks for in the list of episodes on a web comic's page.
pub open spec fn episode_looks() -> ItemLooksView {
    ItemLooksView {
        list: "detail_lst"@,
        item: "li"@,
        subject: "subj"@,
        part: "span"@,
        date: "date"@,
        link: "href"@,
        mark: "tx_up"@,
    }
}

/// What the page `html`, fetched from `url`, tells of a web comic.
pub fn read_page(html: &str, url: &str) -> (page: Page)
    ensures
        page.title@ == text_or(html_first_text(html@, "h1"@, "subj"@), NO_TITLE@),
        text_view(page.first_image) == html_first_attr(
            html@,
            "detail_lst"@,
            "thmb"@,
            "img"@,
            "src"@,
        ),
        episodes_view(page.episodes@) == episodes_of(html_items(html@, episode_looks()), url@),
{
    let title = page_title(first_text(html, "h1", "subj"));
    let first_image = first_attr(html, "detail_lst", "thmb", "img", "src");
    let looks = ItemLooks {
        list: "detail_lst",
        item: "li",
        subject: "subj",
        part: "span",
        date: "date",
        link: "href",
        mark: "tx_up",
    };
    let found = items(html, &looks);
    Page { title, first_image, episodes: episodes_from(&found, url) }
}

/// The line under an episode's name: its date as a link to it, and a mark
/// where it is new.
pub fn episode_line(episode: &Episode) -> (line: String)
    ensures
        line@ == "["@ + episode.date@ + "]("@ + episode.link@ + ") "@ + (if episode.up {
            " **UP**"@
        } else {
            ""@
        }),
{
    String::from_str("[").concat(episode.date.as_str()).concat("](").concat(
        episode.link.as_str(),
    ).concat(") ").concat(
        if episode.up {
            " **UP**"
        } else {
            ""
        },
    )
}

/// What the bot may say with a web comic's page.
pub fn remarks() -> (list: Vec<&'static str>)
    ensures
        list@.len() == 3,
        list@[0]@ == "I already read this..."@,
        list@[1]@ == "The last episode was pretty epic; you should read it!"@,
        list@[2]@ == "I approve."@,
{
    let mut list: Vec<&'static str> = Vec::new();
    list.push("I already read this...");
    list.push("The last episode was pretty epic; you should read it!");
    list.push("I approve.");
    list
}

/// The remark that was chosen, and the empty text where none was.
pub fn remark_or_nothing<'a>(choice: Option<&'a &'static str>) -> (remark: &'a str)
    ensures
        remark@ == match choice {
            Some(text) => text@,
            None => ""@,
        },
{
    match choice {
        Some(text) => *text,
        None => "",
    }
}

/// One of the bot's remarks, as chance gives it.
pub fn random_remark() -> (remark: String)
    ensures
        remark@ == "I already read this..."@ || remark@
            == "The last episode was pretty epic; you should read it!"@ || remark@
            == "I approve."@,
{
    let list = remarks();
    let choice = pick(&list);
    proof {
        if let Some(text) = choice {
            let at = choose|at: int| 0 <= at < list@.len() && list@[at] == *text;
            assert(list@[at] == *text);
        }
    }
    remark_or_nothing(choice).to_owned()
}

/// What the bot says of a short name under which no web comic is followed.
pub const UNKNOWN_WEBTOON: &'static str =
    "I don't know which Webtoon you're referring to; a Webtoon doesn't exist with that ID.";

/// The hint that goes with it.
pub fn unknown_webtoon_hint(id: &str) -> (hint: String)
    ensures
        hint@ == "Hint: Request the mods to do `:webtoon add "@ + id@ + " <url>` first."@,
{
    String::from_str("Hint: Request the mods to do `:webtoon add ").concat(id).concat(
        " <url>` first.",
    )
}

/// The line that lists a web comic.
pub fn listing_line(id: &str, url: &str) -> (line: String)
    ensures
        line@ == "[`"@ + id@ + "`]("@ + url@ + ")"@,
{
    String::from_str("[`").concat(id).concat("`](").concat(url).concat(")")
}

/// What the list says where no web comic is followed.
pub const NONE_ADDED: &'static str =
    "No Webtoons have been added. The server's mods should do `:webtoon add <id> <url>` to add some Webtoons.";

/// What the bot says with the list.
pub const LIST_CONTENT: &'static str =
    "Use `:webtoon check <id>` to check on an individual Webtoon by ID.\n\nTip: For most Webtoon IDs, you can simply just do `:<id>`.";

/// The most bytes of the list that are shown in full.
pub const LIST_LIMIT: usize = 2000;

/// The bytes of a longer list that are shown.
pub const LIST_CUT: usize = 1994;

/// The list `ids` as it is shown: in full where it takes 2000 bytes at
/// most, and its first 1994 bytes with a mark after them where it takes
/// more.
pub open spec fn listing_text(ids: Seq<char>) -> Seq<char> {
    if ids.len() == 0 {
        NONE_ADDED@
    } else if utf8_len(ids) > LIST_LIMIT {
        clipped(ids, LIST_CUT as int) + "\n[...]"@
    } else {
        ids
    }
}

/// The list `ids` can be shown: where it takes more than 2000 bytes, no
/// character lies across the end of its first 1994.
pub open spec fn can_list(ids: Seq<char>) -> bool {
    ids.len() > 0 && utf8_len(ids) > LIST_LIMIT ==> can_clip(ids, LIST_CUT as int)
}

/// The list `ids` as it is shown.
pub fn listing_description(ids: &str) -> (shown: String)
    requires
        can_list(ids@),
    ensures
        shown@ == listing_text(ids@),
{
    if ids.is_empty() {
        String::from_str(NONE_ADDED)
    } else if byte_len(ids) > LIST_LIMIT {
        String::from_str(clip(ids, LIST_CUT)).concat("\n[...]")
    } else {
        ids.to_owned()
    }
}

/// The list of the web comics with the lines `lines`, as it is shown;
/// nothing where it cannot be shown.
pub fn listing(lines: &Vec<String>) -> (shown: Option<String>)
    ensures
        match shown {
            Some(text) => can_list(joined(texts(lines@), "\n"@)) && text@ == listing_text(
                joined(texts(lines@), "\n"@),
            ),
            None => !can_list(joined(texts(lines@), "\n"@)),
        },
{
    let ids = join(lines, "\n");
    if ids.as_str().is_empty() || byte_len(ids.as_str()) <= LIST_LIMIT || clips_at(
        ids.as_str(),
        LIST_CUT,
    ) {
        Some(listing_description(ids.as_str()))
    } else {
        None
    }
}

} // verus!
