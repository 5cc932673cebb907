//! Conversions between JSON documents and the collections of the records,
//! each by a function that converts one item.

use crate::json::{
    fields_entries, fields_insert, json_model, json_object, models_of, new_fields, object_model,
    value_as_array, Fields, Json,
};
use crate::string_map::{has_key, index_of, lemma_listing_entry, StringMap};
use vstd::prelude::*;

verus! {

/// The values that are present in `picks`, in their order.
pub open spec fn kept<T>(picks: Seq<Option<T>>) -> Seq<T>
    decreases picks.len(),
{
    if picks.len() == 0 {
        Seq::empty()
    } else {
        match picks.last() {
            Some(item) => kept(picks.drop_last()).push(item),
            None => kept(picks.drop_last()),
        }
    }
}

/// `picks` holds, item for item, what `transform` returned on `items`.
pub open spec fn picked_from<T, F: Fn(&serde_json::Value) -> Option<T>>(
    transform: F,
    items: Seq<serde_json::Value>,
    picks: Seq<Option<T>>,
) -> bool {
    &&& picks.len() == items.len()
    &&& forall|i: int|
        0 <= i < items.len() ==> call_ensures(transform, (&items[i],), #[trigger] picks[i])
}

/// `transform` returned `pick` on a document that holds `model`.
pub open spec fn member_gives<T, F: Fn(&serde_json::Value) -> Option<T>>(
    transform: F,
    model: Json,
    pick: Option<T>,
) -> bool {
    exists|member: serde_json::Value| #[trigger]
        json_model(member) == model && call_ensures(transform, (&member,), pick)
}

/// `transform` returned a document that holds `model` on `item`.
pub open spec fn item_gives<V, F: Fn(&V) -> serde_json::Value>(
    transform: F,
    item: V,
    model: Json,
) -> bool {
    exists|member: serde_json::Value| #[trigger]
        json_model(member) == model && call_ensures(transform, (&item,), member)
}

/// What `map` holds for `key`, if anything.
pub open spec fn lookup<V>(map: Map<Seq<char>, V>, key: Seq<char>) -> Option<V> {
    if map.contains_key(key) {
        Some(map[key])
    } else {
        None
    }
}

/// Converts the items of a JSON array, leaving out those for which
/// `transform` returns nothing.  A `value` that is no array gives nothing.
pub fn serde_value_to_vec<T, F>(value: &serde_json::Value, transform: F) -> (list: Option<
    Vec<T>,
>) where F: Fn(&serde_json::Value) -> Option<T>
    requires
        forall|item: &serde_json::Value| call_requires(transform, (item,)),
    ensures
        list is Some <==> json_model(*value) is Array,
        list matches Some(out) ==> exists|items: Seq<serde_json::Value>, picks: Seq<Option<T>>|
            #[trigger] picked_from(transform, items, picks) && json_model(*value) == Json::Array(
                models_of(items),
            ) && out@ == kept(picks),
{
    match value_as_array(value) {
        None => None,
        Some(items) => {
            let mut out: Vec<T> = Vec::new();
            let ghost mut picks: Seq<Option<T>> = Seq::empty();
            let mut i: usize = 0;
            while i < items.len()
                invariant
                    i <= items@.len(),
                    picks.len() == i,
                    forall|j: int|
                        0 <= j < i ==> call_ensures(transform, (&items@[j],), #[trigger] picks[j]),
                    out@ == kept(picks),
                    forall|item: &serde_json::Value| call_requires(transform, (item,)),
                decreases items@.len() - i,
            {
                let pick = transform(&items[i]);
                proof {
                    let longer = picks.push(pick);
                    assert(longer.drop_last() == picks);
                    assert(longer.last() == pick);
                    picks = longer;
                }
                if let Some(item) = pick {
                    out.push(item);
                }
                i += 1;
            }
            assert(picked_from(transform, items@, picks));
            Some(out)
        },
    }
}

/// Converts the members of a JSON object, leaving out those for which
/// `transform` returns nothing.
pub fn serde_map_to_hashmap<V, F>(map: &Fields, transform: F) -> (picked: StringMap<V>) where
    F: Fn(&serde_json::Value) -> Option<V>,

    requires
        forall|item: &serde_json::Value| call_requires(transform, (item,)),
    ensures
        forall|key: Seq<char>| #[trigger]
            picked@.contains_key(key) ==> object_model(*map).contains_key(key),
        forall|key: Seq<char>| #[trigger]
            object_model(*map).contains_key(key) ==> member_gives(
                transform,
                object_model(*map)[key],
                lookup(picked@, key),
            ),
{
    let entries = fields_entries(map);
    let mut picked: StringMap<V> = StringMap::new();
    let mut i: usize = 0;
    while i < entries.len()
        invariant
            i <= entries@.len(),
            forall|a: int, b: int|
                0 <= a < b < entries@.len() ==> (#[trigger] entries@[a]).0@ != (
                #[trigger] entries@[b]).0@,
            forall|j: int|
                0 <= j < entries@.len() ==> object_model(*map).contains_key(
                    (#[trigger] entries@[j]).0@,
                ) && object_model(*map)[entries@[j].0@] == json_model(*entries@[j].1),
            forall|key: Seq<char>| #[trigger]
                picked@.contains_key(key) ==> exists|j: int|
                    0 <= j < i && (#[trigger] entries@[j]).0@ == key,
            forall|j: int|
                0 <= j < i ==> member_gives(
                    transform,
                    object_model(*map)[(#[trigger] entries@[j]).0@],
                    lookup(picked@, entries@[j].0@),
                ),
            forall|item: &serde_json::Value| call_requires(transform, (item,)),
        decreases entries@.len() - i,
    {
        let key = entries[i].0;
        let member = entries[i].1;
        let ghost before = picked@;
        assert(!before.contains_key(key@)) by {
            if before.contains_key(key@) {
                let j = choose|j: int| 0 <= j < i && (#[trigger] entries@[j]).0@ == key@;
                assert(entries@[j].0@ != entries@[i as int].0@);
            }
        }
        let pick = transform(member);
        let ghost shown = pick;
        if let Some(item) = pick {
            picked.insert(key.clone(), item);
        }
        proof {
            assert(lookup(picked@, key@) == shown);
            assert(json_model(*member) == object_model(*map)[key@]);
            assert(member_gives(transform, object_model(*map)[key@], lookup(picked@, key@)));
            assert forall|j: int| 0 <= j < i + 1 implies member_gives(
                transform,
                object_model(*map)[(#[trigger] entries@[j]).0@],
                lookup(picked@, entries@[j].0@),
            ) by {
                if j < i {
                    assert(entries@[j].0@ != entries@[i as int].0@);
                    assert(lookup(picked@, entries@[j].0@) == lookup(before, entries@[j].0@));
                }
            }
            assert forall|k: Seq<char>| #[trigger] picked@.contains_key(k) implies exists|j: int|
                0 <= j < i + 1 && (#[trigger] entries@[j]).0@ == k by {
                if k == key@ {
                    assert(entries@[i as int].0@ == k);
                } else {
                    assert(before.contains_key(k));
                    let j = choose|j: int| 0 <= j < i && (#[trigger] entries@[j]).0@ == k;
                    assert(0 <= j < i + 1 && entries@[j].0@ == k);
                }
            }
        }
        i += 1;
    }
    proof {
        assert forall|key: Seq<char>| #[trigger]
            object_model(*map).contains_key(key) implies member_gives(
            transform,
            object_model(*map)[key],
            lookup(picked@, key),
        ) by {
            let j = choose|j: int| 0 <= j < entries@.len() && (#[trigger] entries@[j]).0@ == key;
            assert(entries@[j].0@ == key);
        }
        assert forall|key: Seq<char>| #[trigger] picked@.contains_key(key) implies object_model(
            *map,
        ).contains_key(key) by {
            let j = choose|j: int| 0 <= j < i && (#[trigger] entries@[j]).0@ == key;
            assert(object_model(*map).contains_key(entries@[j].0@));
        }
    }
    picked
}

/// Makes the JSON object that has a member for each entry of `hash_map`,
/// with the document that `transform` makes of the entry's value.
pub fn hashmap_to_serde_object<V, F>(hash_map: &StringMap<V>, transform: F) -> (object:
    serde_json::Value) where F: Fn(&V) -> serde_json::Value
    requires
        forall|item: &V| call_requires(transform, (item,)),
    ensures
        json_model(object) is Object,
        json_model(object)->Object_0.dom() == hash_map@.dom(),
        forall|key: Seq<char>| #[trigger]
            hash_map@.contains_key(key) ==> item_gives(
                transform,
                hash_map@[key],
                json_model(object)->Object_0[key],
            ),
{
    let list = hash_map.entries();
    let mut fields = new_fields();
    let mut i: usize = 0;
    while i < list.len()
        invariant
            i <= list@.len(),
            crate::string_map::distinct_keys(list@),
            forall|key: Seq<char>| #[trigger]
                object_model(fields).contains_key(key) <==> exists|j: int|
                    0 <= j < i && (#[trigger] list@[j]).0@ == key,
            forall|j: int|
                0 <= j < i ==> item_gives(
                    transform,
                    (#[trigger] list@[j]).1,
                    object_model(fields)[list@[j].0@],
                ),
            forall|item: &V| call_requires(transform, (item,)),
        decreases list@.len() - i,
    {
        let ghost before = object_model(fields);
        let member = transform(&list[i].1);
        let ghost shown = json_model(member);
        fields_insert(&mut fields, list[i].0.clone(), member);
        proof {
            let key = list@[i as int].0@;
            assert(object_model(fields) == before.insert(key, shown));
            assert(item_gives(transform, list@[i as int].1, object_model(fields)[key]));
            assert forall|j: int| 0 <= j < i + 1 implies item_gives(
                transform,
                (#[trigger] list@[j]).1,
                object_model(fields)[list@[j].0@],
            ) by {
                if j < i {
                    assert(list@[j].0@ != list@[i as int].0@);
                    assert(object_model(fields)[list@[j].0@] == before[list@[j].0@]);
                }
            }
            assert forall|k: Seq<char>| #[trigger]
                object_model(fields).contains_key(k) <==> exists|j: int|
                    0 <= j < i + 1 && (#[trigger] list@[j]).0@ == k by {
                if object_model(fields).contains_key(k) {
                    if k == key {
                        assert(list@[i as int].0@ == k);
                    } else {
                        assert(before.contains_key(k));
                        let j = choose|j: int| 0 <= j < i && (#[trigger] list@[j]).0@ == k;
                        assert(0 <= j < i + 1 && list@[j].0@ == k);
                    }
                }
                if exists|j: int| 0 <= j < i + 1 && (#[trigger] list@[j]).0@ == k {
                    let j = choose|j: int| 0 <= j < i + 1 && (#[trigger] list@[j]).0@ == k;
                    if j < i {
                        assert(before.contains_key(k));
                    }
                }
            }
        }
        i += 1;
    }
    let object = json_object(fields);
    proof {
        assert forall|key: Seq<char>| object_model(fields).contains_key(key)
            <==> hash_map@.contains_key(key) by {
            if hash_map@.contains_key(key) {
                let j = index_of(list@, key);
                assert(list@[j].0@ == key);
            }
            if object_model(fields).contains_key(key) {
                let j = choose|j: int| 0 <= j < i && (#[trigger] list@[j]).0@ == key;
                assert(has_key(list@, key));
            }
        }
        assert(object_model(fields).dom() =~= hash_map@.dom());
        assert forall|key: Seq<char>| #[trigger] hash_map@.contains_key(key) implies item_gives(
            transform,
            hash_map@[key],
            json_model(object)->Object_0[key],
        ) by {
            let j = index_of(list@, key);
            assert(list@[j].0@ == key);
            lemma_listing_entry(list@, j);
        }
    }
    object
}

} // verus!
