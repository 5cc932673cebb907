//! How often each custom emoji has been used in a guild.

use crate::client_data::guild_data::save_outcome;
use crate::client_data::{ClientData, GuildId};
use crate::decimal::{decimal, decimal_string};
use crate::dumb_error::DumbError;
use crate::json::{
    json_bytes, json_model, json_number, json_parsed, object_model, parse_json, render_json,
    value_as_object, value_as_u64, Fields, Json,
};
use crate::serde_conversions::{
    hashmap_to_serde_object, item_gives, lookup, member_gives, serde_map_to_hashmap,
};
use crate::string_map::{with_entry, StringMap};
use vstd::prelude::*;

verus! {

/// The number that the document `doc` holds, where it is a number from 0 to
/// `u64::MAX`.
pub open spec fn number_of(doc: Json) -> Option<u64> {
    match doc {
        Json::Integer(number) => if 0 <= number <= u64::MAX {
            Some(number as u64)
        } else {
            None
        },
        _ => None,
    }
}

/// The counts that the document `doc` gives: where it is an object, those of
/// its members that are numbers from 0 to `u64::MAX`.
pub open spec fn counts_in(doc: Json) -> Map<Seq<char>, u64> {
    match doc {
        Json::Object(members) => Map::new(
            |key: Seq<char>| members.contains_key(key) && number_of(members[key]) is Some,
            |key: Seq<char>| number_of(members[key])->Some_0,
        ),
        _ => Map::empty(),
    }
}

/// The counts that a file with `contents` gives: those of the document that
/// the bytes spell, and none where there is no file or no document.
pub open spec fn counts_from(contents: Option<Seq<u8>>) -> Map<Seq<char>, u64> {
    match contents {
        Some(bytes) => match json_parsed(bytes) {
            Some(doc) => counts_in(doc),
            None => Map::empty(),
        },
        None => Map::empty(),
    }
}

/// The members of the document that holds `counts`.
pub open spec fn count_members(counts: Map<Seq<char>, u64>) -> Map<Seq<char>, Json> {
    counts.map_values(|count: u64| Json::Integer(count as int))
}

/// Counts that are written out and read back are the counts they were.
pub proof fn lemma_counts_round_trip(counts: Map<Seq<char>, u64>)
    ensures
        counts_in(Json::Object(count_members(counts))) == counts,
{
    assert(counts_in(Json::Object(count_members(counts))) =~= counts);
}

/// The number in a JSON document, where it is one from 0 to `u64::MAX`.
pub fn count_of(value: &serde_json::Value) -> (count: Option<u64>)
    ensures
        count == number_of(json_model(*value)),
{
    value_as_u64(value)
}

/// The JSON number for `count`.
pub fn count_to_json(count: &u64) -> (value: serde_json::Value)
    ensures
        json_model(value) == Json::Integer(*count as int),
{
    json_number(*count)
}

/// The counts among the members of a JSON object.
pub fn counts_of(members: &Fields) -> (counts: StringMap<u64>)
    ensures
        counts@ == counts_in(Json::Object(object_model(*members))),
{
    let counts = serde_map_to_hashmap(members, count_of);
    proof {
        let model = object_model(*members);
        assert forall|key: Seq<char>| #[trigger] model.contains_key(key) implies lookup(
            counts@,
            key,
        ) == number_of(model[key]) by {
            assert(member_gives(count_of, model[key], lookup(counts@, key)));
        }
        assert forall|key: Seq<char>| counts@.contains_key(key) implies model.contains_key(
            key,
        ) by {}
        assert(counts@ =~= counts_in(Json::Object(model)));
    }
    counts
}

/// The JSON object that has a number member for each of `counts`.
pub fn counts_to_json(counts: &StringMap<u64>) -> (value: serde_json::Value)
    ensures
        json_model(value) == Json::Object(count_members(counts@)),
{
    let value = hashmap_to_serde_object(counts, count_to_json);
    proof {
        let members = json_model(value)->Object_0;
        assert forall|key: Seq<char>| #[trigger] members.contains_key(key) implies members[key]
            == count_members(counts@)[key] by {
            assert(counts@.contains_key(key));
            assert(item_gives(count_to_json, counts@[key], members[key]));
        }
        assert(members =~= count_members(counts@));
    }
    value
}

/// How often each custom emoji has been used in a guild.
#[derive(Debug)]
pub struct EmojiData {
    pub id: GuildId,
    /// The number of uses, by the emoji's id.
    pub emoji: StringMap<u64>,
}

impl EmojiData {
    /// The record of a guild in which no emoji has been counted.
    pub fn empty(id: GuildId) -> (record: Self)
        ensures
            record.id == id,
            record.emoji@ == Map::<Seq<char>, u64>::empty(),
            record.emoji.order() == Seq::<(Seq<char>, u64)>::empty(),
    {
        EmojiData { id, emoji: StringMap::new() }
    }

    /// How often the emoji `id` has been counted.
    pub open spec fn uses(&self, id: Seq<char>) -> nat {
        if self.emoji@.contains_key(id) {
            self.emoji@[id] as nat
        } else {
            0
        }
    }

    /// Counts one more use of the emoji `id`.
    pub fn track_emoji(&mut self, id: String)
        requires
            old(self).uses(id@) < u64::MAX,
        ensures
            final(self).id == old(self).id,
            final(self).emoji@ == old(self).emoji@.insert(id@, (old(self).uses(id@) + 1) as u64),
            final(self).emoji.order() == with_entry(
                old(self).emoji.order(),
                id@,
                (old(self).uses(id@) + 1) as u64,
            ),
    {
        let count = match self.emoji.get(id.as_str()) {
            Some(found) => *found,
            None => 0,
        };
        self.emoji.insert(id, count + 1);
    }

    /// The document that `save` writes.
    pub fn to_document(&self) -> (value: serde_json::Value)
        ensures
            json_model(value) == Json::Object(count_members(self.emoji@)),
    {
        counts_to_json(&self.emoji)
    }
}

/// Counts that are saved and loaded again from the bytes that `save`
/// returned are the counts they were, as far as the bytes read back as the
/// document that was written.
pub proof fn lemma_counts_save_then_load(
    record: EmojiData,
    written: serde_json::Value,
    bytes: Seq<u8>,
    loaded: EmojiData,
)
    requires
        json_model(written) == Json::Object(count_members(record.emoji@)),
        bytes == json_bytes(written),
        json_parsed(bytes) == Some(json_model(written)),
        loaded.loaded_from(record.id, Some(bytes)),
    ensures
        loaded.id == record.id,
        loaded.emoji@ == record.emoji@,
{
    lemma_counts_round_trip(record.emoji@);
}

impl ClientData for EmojiData {
    type Id = GuildId;

    open spec fn path_of(id: GuildId) -> Seq<char> {
        "data/emoji/"@ + decimal(id.0 as nat) + ".json"@
    }

    open spec fn loaded_from(&self, id: GuildId, contents: Option<Seq<u8>>) -> bool {
        &&& self.id == id
        &&& self.emoji@ == counts_from(contents)
    }

    fn path(id: GuildId) -> (path: String) {
        let path = String::from_str("data/emoji/").concat(decimal_string(id.0).as_str()).concat(
            ".json",
        );
        path
    }

    fn from_file(id: GuildId, contents: Option<&[u8]>) -> (record: Self) {
        match contents {
            Some(bytes) => match parse_json(bytes) {
                Ok(doc) => {
                    let emoji = match value_as_object(&doc) {
                        Some(members) => counts_of(members),
                        None => StringMap::new(),
                    };
                    EmojiData { id, emoji }
                },
                Err(_) => EmojiData::empty(id),
            },
            None => EmojiData::empty(id),
        }
    }

    open spec fn unchanged_since(&self, before: &Self) -> bool {
        self.id == before.id && self.emoji == before.emoji
    }

    open spec fn written_as(&self, bytes: Seq<u8>) -> bool {
        exists|written: serde_json::Value| #[trigger]
            json_model(written) == Json::Object(count_members(self.emoji@)) && bytes == json_bytes(
                written,
            )
    }

    /// Returns the bytes of the document that holds the counts.  The record
    /// stays as it is.
    fn save(&mut self) -> (outcome: Result<Vec<u8>, DumbError>)
        ensures
            outcome is Ok,
    {
        let json = self.to_document();
        save_outcome(render_json(&json))
    }
}

} // verus!
