//! Strings as sequences of characters, and the pieces of text that the bot's
//! replies are made of.

use vstd::prelude::*;
use vstd::utf8::{decode_utf8, encode_utf8, encode_utf8_decode_utf8, is_char_boundary};

verus! {

/// The number of bytes that `text` takes in UTF-8, as `str::len` counts
/// them.
pub open spec fn utf8_len(text: Seq<char>) -> usize {
    encode_utf8(text).len() as usize
}

/// `text` can be cut after its first `limit` bytes: it has that many, and no
/// character lies across the cut.
pub open spec fn can_clip(text: Seq<char>, limit: int) -> bool {
    is_char_boundary(encode_utf8(text), limit)
}

/// The characters that the first `limit` bytes of `text` spell.
pub open spec fn clipped(text: Seq<char>, limit: int) -> Seq<char> {
    decode_utf8(encode_utf8(text).subrange(0, limit))
}

/// The texts of `parts` with `between` between each two of them.
pub open spec fn joined(parts: Seq<Seq<char>>, between: Seq<char>) -> Seq<char>
    decreases parts.len(),
{
    if parts.len() == 0 {
        Seq::empty()
    } else if parts.len() == 1 {
        parts[0]
    } else {
        joined(parts.drop_last(), between) + between + parts.last()
    }
}

/// `text` with each `from` in it replaced by `to`, the first to the left
/// first and the next after the end of it.
pub open spec fn replaced(text: Seq<char>, from: Seq<char>, to: Seq<char>) -> Seq<char>
    decreases text.len(),
{
    if from.len() == 0 || text.len() < from.len() {
        text
    } else if text.subrange(0, from.len() as int) == from {
        to + replaced(text.skip(from.len() as int), from, to)
    } else {
        seq![text[0]] + replaced(text.skip(1), from, to)
    }
}

/// `str::replace`, which replaces every match of `from` in `text` by `to`.
#[verifier::external_body]
pub(crate) fn replace(text: &str, from: &str, to: &str) -> (changed: String)
    requires
        from@.len() > 0,
    ensures
        changed@ == replaced(text@, from@, to@),
{
    text.replace(from, to)
}

/// The number of bytes of `text`.
pub fn byte_len(text: &str) -> (len: usize)
    ensures
        len == utf8_len(text@),
{
    text.len()
}

/// Whether `text` can be cut after its first `limit` bytes.
pub fn clips_at(text: &str, limit: usize) -> (fits: bool)
    ensures
        fits == can_clip(text@, limit as int),
{
    text.is_char_boundary(limit)
}

/// The first `limit` bytes of `text`.
pub fn clip(text: &str, limit: usize) -> (head: &str)
    requires
        can_clip(text@, limit as int),
    ensures
        head@ == clipped(text@, limit as int),
{
    let (head, _) = text.split_at(limit);
    proof {
        encode_utf8_decode_utf8(head@);
    }
    head
}

/// The texts of `parts` with `between` between each two of them.
pub fn join(parts: &Vec<String>, between: &str) -> (text: String)
    ensures
        text@ == joined(texts(parts@), between@),
{
    let mut text = String::new();
    let mut i: usize = 0;
    while i < parts.len()
        invariant
            i <= parts@.len(),
            text@ == joined(texts(parts@).take(i as int), between@),
        decreases parts@.len() - i,
    {
        proof {
            let done = texts(parts@).take(i as int);
            let more = texts(parts@).take(i + 1);
            assert(more.drop_last() =~= done);
            assert(more.last() == parts@[i as int]@);
            if i == 0 {
                assert(text@ + parts@[0]@ =~= parts@[0]@);
            }
        }
        if i > 0 {
            text.append(between);
        }
        text.append(parts[i].as_str());
        proof {
            if i > 0 {
                assert(text@ =~= joined(texts(parts@).take(i as int), between@) + between@
                    + parts@[i as int]@);
            }
        }
        i += 1;
    }
    assert(texts(parts@).take(parts@.len() as int) =~= texts(parts@));
    text
}

/// The characters of each string of `list`.
pub open spec fn texts(list: Seq<String>) -> Seq<Seq<char>> {
    list.map_values(|text: String| text@)
}

/// The characters of each cell of each row of `table`.
pub open spec fn rows(table: Seq<Vec<String>>) -> Seq<Seq<Seq<char>>> {
    table.map_values(|row: Vec<String>| texts(row@))
}

/// The characters of each value of `map`.
pub open spec fn text_values(map: Map<Seq<char>, String>) -> Map<Seq<char>, Seq<char>> {
    map.map_values(|text: String| text@)
}

/// The characters of `text`, if there is one.
pub open spec fn text_view(text: Option<String>) -> Option<Seq<char>> {
    match text {
        Some(found) => Some(found@),
        None => None,
    }
}

/// The characters of each string of `list`, if there is one.
pub open spec fn texts_view(list: Option<Vec<String>>) -> Option<Seq<Seq<char>>> {
    match list {
        Some(found) => Some(texts(found@)),
        None => None,
    }
}

} // verus!
