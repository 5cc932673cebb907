//! What a stored record looks like as a JSON document: how strings, lists of
//! strings and tables of strings are written into one and read back.

use crate::json::{
    json_array, json_model, json_string, models_of, object_model, value_as_str, Fields, Json,
};
use crate::serde_conversions::{
    hashmap_to_serde_object, item_gives, kept, lookup, member_gives, picked_from,
    serde_map_to_hashmap, serde_value_to_vec,
};
use crate::string_map::StringMap;
use crate::text::{rows, text_values, text_view, texts, texts_view};
use vstd::prelude::*;

verus! {

/// The member of the object `doc` for `key`; nothing where `doc` is no object
/// or has no such member.
pub open spec fn member(doc: Json, key: Seq<char>) -> Option<Json> {
    match doc {
        Json::Object(fields) => lookup(fields, key),
        _ => None,
    }
}

/// The text of a JSON string; nothing for any other document.
pub open spec fn text_of(doc: Json) -> Option<Seq<char>> {
    match doc {
        Json::Text(text) => Some(text),
        _ => None,
    }
}

/// The texts of the strings among `items`, in order.
pub open spec fn texts_in(items: Seq<Json>) -> Seq<Seq<char>> {
    kept(items.map_values(|item: Json| text_of(item)))
}

/// The texts of the strings in a JSON array; nothing for any other document.
pub open spec fn texts_of(doc: Json) -> Option<Seq<Seq<char>>> {
    match doc {
        Json::Array(items) => Some(texts_in(items)),
        _ => None,
    }
}

/// For each array among `items`, the texts of its strings, in order.
pub open spec fn rows_in(items: Seq<Json>) -> Seq<Seq<Seq<char>>> {
    kept(items.map_values(|item: Json| texts_of(item)))
}

/// The members of `fields` that are strings, each with its text.
pub open spec fn text_members(fields: Map<Seq<char>, Json>) -> Map<Seq<char>, Seq<char>> {
    Map::new(
        |key: Seq<char>| fields.contains_key(key) && fields[key] is Text,
        |key: Seq<char>| fields[key]->Text_0,
    )
}

/// The JSON string for each of `list`.
pub open spec fn text_items(list: Seq<Seq<char>>) -> Seq<Json> {
    list.map_values(|text: Seq<char>| Json::Text(text))
}

/// The JSON array of strings for each row of `table`.
pub open spec fn row_items(table: Seq<Seq<Seq<char>>>) -> Seq<Json> {
    table.map_values(|row: Seq<Seq<char>>| Json::Array(text_items(row)))
}

/// The JSON string for each value of `map`.
pub open spec fn text_fields(map: Map<Seq<char>, Seq<char>>) -> Map<Seq<char>, Json> {
    map.map_values(|text: Seq<char>| Json::Text(text))
}

/// `convert` applied to `pick`, where there is one.
pub open spec fn lifted<A, B>(convert: spec_fn(A) -> B, pick: Option<A>) -> Option<B> {
    match pick {
        Some(item) => Some(convert(item)),
        None => None,
    }
}

/// Converting what is kept is keeping what is converted.
pub proof fn lemma_kept_map<A, B>(
    picks: Seq<Option<A>>,
    convert: spec_fn(A) -> B,
    targets: Seq<Option<B>>,
)
    requires
        targets.len() == picks.len(),
        forall|i: int| 0 <= i < picks.len() ==> #[trigger] targets[i] == lifted(convert, picks[i]),
    ensures
        kept(picks).map_values(convert) == kept(targets),
    decreases picks.len(),
{
    if picks.len() == 0 {
        assert(kept(picks).map_values(convert) =~= kept(targets));
    } else {
        lemma_kept_map(picks.drop_last(), convert, targets.drop_last());
        assert(targets.last() == lifted(convert, picks.last()));
        match picks.last() {
            Some(item) => {
                assert(kept(picks.drop_last()).push(item).map_values(convert) =~= kept(
                    picks.drop_last(),
                ).map_values(convert).push(convert(item)));
            },
            None => {},
        }
    }
}

/// Every item that is present is kept.
pub proof fn lemma_kept_all<T>(items: Seq<T>)
    ensures
        kept(items.map_values(|item: T| Some(item))) == items,
    decreases items.len(),
{
    let wrap = |item: T| Some(item);
    if items.len() == 0 {
        assert(kept(items.map_values(wrap)) =~= items);
    } else {
        lemma_kept_all(items.drop_last());
        assert(items.map_values(wrap).drop_last() =~= items.drop_last().map_values(wrap));
        assert(items.map_values(wrap).last() == Some(items.last()));
        assert(items.drop_last().push(items.last()) =~= items);
    }
}

/// The strings written by `text_items` are read back by `texts_in`.
pub proof fn lemma_texts_round_trip(list: Seq<Seq<char>>)
    ensures
        texts_in(text_items(list)) == list,
{
    lemma_kept_all(list);
    assert(text_items(list).map_values(|item: Json| text_of(item)) =~= list.map_values(
        |text: Seq<char>| Some(text),
    ));
}

/// The rows written by `row_items` are read back by `rows_in`.
pub proof fn lemma_rows_round_trip(table: Seq<Seq<Seq<char>>>)
    ensures
        rows_in(row_items(table)) == table,
{
    lemma_kept_all(table);
    assert forall|i: int| 0 <= i < table.len() implies texts_of(#[trigger] row_items(table)[i])
        == Some(table[i]) by {
        lemma_texts_round_trip(table[i]);
    }
    assert(row_items(table).map_values(|item: Json| texts_of(item)) =~= table.map_values(
        |row: Seq<Seq<char>>| Some(row),
    ));
}

/// The members written by `text_fields` are read back by `text_members`.
pub proof fn lemma_fields_round_trip(map: Map<Seq<char>, Seq<char>>)
    ensures
        text_members(text_fields(map)) == map,
{
    assert(text_members(text_fields(map)) =~= map);
}

/// The text of a JSON string, copied; nothing for any other document.
pub fn string_of(value: &serde_json::Value) -> (text: Option<String>)
    ensures
        text_view(text) == text_of(json_model(*value)),
{
    match value_as_str(value) {
        Some(found) => Some(found.to_owned()),
        None => None,
    }
}

/// The strings in a JSON array, copied; nothing for any other document.
pub fn strings_of(value: &serde_json::Value) -> (list: Option<Vec<String>>)
    ensures
        texts_view(list) == texts_of(json_model(*value)),
{
    let list = serde_value_to_vec(value, string_of);
    proof {
        if list is Some {
            let out = list->Some_0;
            let (items, picks) = choose|items: Seq<serde_json::Value>, picks: Seq<Option<String>>|
                #[trigger] picked_from(string_of, items, picks) && json_model(*value)
                    == Json::Array(models_of(items)) && out@ == kept(picks);
            let targets = models_of(items).map_values(|item: Json| text_of(item));
            assert forall|i: int| 0 <= i < items.len() implies #[trigger] targets[i] == lifted(
                |text: String| text@,
                picks[i],
            ) by {
                assert(call_ensures(string_of, (&items[i],), picks[i]));
            }
            lemma_kept_map(picks, |text: String| text@, targets);
            assert(texts(out@) == kept(picks).map_values(|text: String| text@));
        }
    }
    list
}

/// The arrays of strings in a JSON array, copied; nothing for any other
/// document.
pub fn table_of(value: &serde_json::Value) -> (table: Option<Vec<Vec<String>>>)
    ensures
        match table {
            Some(found) => json_model(*value) matches Json::Array(items) && rows(found@)
                == rows_in(items),
            None => !(json_model(*value) is Array),
        },
{
    let table = serde_value_to_vec(value, strings_of);
    proof {
        if table is Some {
            let out = table->Some_0;
            let (items, picks) = choose|
                items: Seq<serde_json::Value>,
                picks: Seq<Option<Vec<String>>>,
            |
                #[trigger] picked_from(strings_of, items, picks) && json_model(*value)
                    == Json::Array(models_of(items)) && out@ == kept(picks);
            let targets = models_of(items).map_values(|item: Json| texts_of(item));
            assert forall|i: int| 0 <= i < items.len() implies #[trigger] targets[i] == lifted(
                |row: Vec<String>| texts(row@),
                picks[i],
            ) by {
                assert(call_ensures(strings_of, (&items[i],), picks[i]));
            }
            lemma_kept_map(picks, |row: Vec<String>| texts(row@), targets);
            assert(rows(out@) == kept(picks).map_values(|row: Vec<String>| texts(row@)));
        }
    }
    table
}

/// The members of a JSON object that are strings, copied.
pub fn text_map_of(fields: &Fields) -> (map: StringMap<String>)
    ensures
        text_values(map@) == text_members(object_model(*fields)),
{
    let map = serde_map_to_hashmap(fields, string_of);
    proof {
        let model = object_model(*fields);
        assert forall|key: Seq<char>| #[trigger]
            model.contains_key(key) implies text_view(lookup(map@, key)) == text_of(
            model[key],
        ) by {
            assert(member_gives(string_of, model[key], lookup(map@, key)));
        }
        assert forall|key: Seq<char>| text_values(map@).contains_key(key) <==> text_members(
            model,
        ).contains_key(key) by {
            if map@.contains_key(key) {
                assert(model.contains_key(key));
            }
        }
        assert(text_values(map@) =~= text_members(model));
    }
    map
}

/// The JSON array of the strings of `list`.
pub fn strings_to_json(list: &Vec<String>) -> (value: serde_json::Value)
    ensures
        json_model(value) == Json::Array(text_items(texts(list@))),
{
    let mut items: Vec<serde_json::Value> = Vec::new();
    let mut i: usize = 0;
    while i < list.len()
        invariant
            i <= list@.len(),
            items@.len() == i,
            forall|j: int| 0 <= j < i ==> json_model(#[trigger] items@[j]) == Json::Text(list@[j]@),
        decreases list@.len() - i,
    {
        items.push(json_string(list[i].clone()));
        i += 1;
    }
    assert(models_of(items@) =~= text_items(texts(list@)));
    json_array(items)
}

/// The JSON array that holds, for each row of `table`, the array of its
/// strings.
pub fn table_to_json(table: &Vec<Vec<String>>) -> (value: serde_json::Value)
    ensures
        json_model(value) == Json::Array(row_items(rows(table@))),
{
    let mut items: Vec<serde_json::Value> = Vec::new();
    let mut i: usize = 0;
    while i < table.len()
        invariant
            i <= table@.len(),
            items@.len() == i,
            forall|j: int|
                0 <= j < i ==> json_model(#[trigger] items@[j]) == Json::Array(
                    text_items(texts(table@[j]@)),
                ),
        decreases table@.len() - i,
    {
        items.push(strings_to_json(&table[i]));
        i += 1;
    }
    assert(models_of(items@) =~= row_items(rows(table@)));
    json_array(items)
}

/// The JSON string with a copy of `text`.
pub fn string_to_json(text: &String) -> (value: serde_json::Value)
    ensures
        json_model(value) == Json::Text(text@),
{
    json_string(text.clone())
}

/// The JSON object that has a string member for each entry of `map`.
pub fn text_map_to_json(map: &StringMap<String>) -> (value: serde_json::Value)
    ensures
        json_model(value) == Json::Object(text_fields(text_values(map@))),
{
    let value = hashmap_to_serde_object(map, string_to_json);
    proof {
        let fields = json_model(value)->Object_0;
        assert forall|key: Seq<char>| #[trigger] fields.contains_key(key) implies fields[key]
            == text_fields(text_values(map@))[key] by {
            assert(map@.contains_key(key));
            assert(item_gives(string_to_json, map@[key], fields[key]));
        }
        assert(fields =~= text_fields(text_values(map@)));
    }
    value
}

} // verus!
