//! Bindings to `regex`: what a pattern finds in a text, named and not
//! spelled out.  The contracts in this file are not proved.  Each says that
//! what the crate returns depends on the pattern and the text alone.

use crate::text::texts_view;
use vstd::prelude::*;

verus! {

/// Whether the pattern matches somewhere in `text`, with or without regard
/// to case; nothing where `pattern` is no valid pattern.
pub uninterp spec fn regex_is_match(
    pattern: Seq<char>,
    case_insensitive: bool,
    text: Seq<char>,
) -> Option<bool>;

/// The text of the first match of the pattern in `text`, if it matches;
/// nothing at all where `pattern` is no valid pattern.
pub uninterp spec fn regex_find(pattern: Seq<char>, text: Seq<char>) -> Option<Option<Seq<char>>>;

/// The pieces of `text` between the matches of the pattern, in order;
/// nothing where `pattern` is no valid pattern.
pub uninterp spec fn regex_split(pattern: Seq<char>, text: Seq<char>) -> Option<Seq<Seq<char>>>;

/// For each match of the pattern in `text`, in order, what its group
/// `group` matched, if it took part in the match; nothing where `pattern`
/// is no valid pattern.
pub uninterp spec fn regex_groups(pattern: Seq<char>, group: int, text: Seq<char>) -> Option<
    Seq<Option<Seq<char>>>,
>;

/// The characters of the text inside `found`.
pub open spec fn found_view(found: Option<Option<String>>) -> Option<Option<Seq<char>>> {
    match found {
        Some(Some(text)) => Some(Some(text@)),
        Some(None) => Some(None),
        None => None,
    }
}

/// The characters of each text inside `found`.
pub open spec fn groups_view(found: Option<Vec<Option<String>>>) -> Option<
    Seq<Option<Seq<char>>>,
> {
    match found {
        Some(list) => Some(
            list@.map_values(
                |group: Option<String>|
                    match group {
                        Some(text) => Some(text@),
                        None => None,
                    },
            ),
        ),
        None => None,
    }
}

/// Whether a search for a pattern came to a match.  A search with what is
/// no pattern comes to none.
pub fn is_found(outcome: Option<bool>) -> (found: bool)
    ensures
        found == (outcome == Some(true)),
{
    match outcome {
        Some(true) => true,
        _ => false,
    }
}

/// The text that a search for a pattern found.  A search with what is no
/// pattern finds none.
pub fn found_text(outcome: Option<Option<String>>) -> (text: Option<String>)
    ensures
        text == match outcome {
            Some(found) => found,
            None => None,
        },
{
    match outcome {
        Some(found) => found,
        None => None,
    }
}

/// `Regex::is_match` on the regex that `RegexBuilder` builds from `pattern`
/// with `case_insensitive` set as given.
#[verifier::external_body]
pub(crate) fn is_match(pattern: &str, case_insensitive: bool, text: &str) -> (matched: Option<bool>)
    ensures
        matched == regex_is_match(pattern@, case_insensitive, text@),
{
    let built = regex::RegexBuilder::new(pattern).case_insensitive(case_insensitive).build();
    built.ok().map(|regex| regex.is_match(text))
}

/// `Regex::find` on the regex for `pattern`, and the text of the match.
#[verifier::external_body]
pub(crate) fn first_match(pattern: &str, text: &str) -> (found: Option<Option<String>>)
    ensures
        found_view(found) == regex_find(pattern@, text@),
{
    let built = regex::Regex::new(pattern);
    built.ok().map(|regex| regex.find(text).map(|found| found.as_str().to_owned()))
}

/// `Regex::split` on the regex for `pattern`, collected.
#[verifier::external_body]
pub(crate) fn split(pattern: &str, text: &str) -> (pieces: Option<Vec<String>>)
    ensures
        texts_view(pieces) == regex_split(pattern@, text@),
{
    let built = regex::Regex::new(pattern);
    built.ok().map(|regex| regex.split(text).map(|piece| piece.to_owned()).collect())
}

/// `Regex::captures_iter` on the regex for `pattern`, and of each match the
/// text of its group `group`.
#[verifier::external_body]
pub(crate) fn groups(pattern: &str, group: usize, text: &str) -> (found: Option<
    Vec<Option<String>>,
>)
    ensures
        groups_view(found) == regex_groups(pattern@, group as int, text@),
{
    let built = regex::Regex::new(pattern);
    built.ok().map(
        |regex|
            regex.captures_iter(text).map(
                |found| found.get(group).map(|part| part.as_str().to_owned()),
            ).collect(),
    )
}

} // verus!
