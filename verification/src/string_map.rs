//! A map from strings to values that remembers the order in which its keys
//! were first inserted.  The records list their maps entry by entry when
//! they are written out, and the bot lists its counts in this order.

use vstd::prelude::*;
use vstd::string::StringSliceAdditionalSpecFns;
use vstd::utf8::{encode_utf8, encode_utf8_decode_utf8};

verus! {

/// No two entries of `list` have the same key.
pub open spec fn distinct_keys<V>(list: Seq<(String, V)>) -> bool {
    forall|i: int, j: int| 0 <= i < j < list.len() ==> (#[trigger] list[i]).0@ != (#[trigger] list[j]).0@
}

/// Some entry of `list` has the key `key`.
pub open spec fn has_key<V>(list: Seq<(String, V)>, key: Seq<char>) -> bool {
    exists|i: int| 0 <= i < list.len() && (#[trigger] list[i]).0@ == key
}

/// The position of an entry of `list` with the key `key`.
pub open spec fn index_of<V>(list: Seq<(String, V)>, key: Seq<char>) -> int {
    choose|i: int| 0 <= i < list.len() && (#[trigger] list[i]).0@ == key
}

/// The map that a list of entries stands for.
pub open spec fn listing_map<V>(list: Seq<(String, V)>) -> Map<Seq<char>, V> {
    Map::new(|key: Seq<char>| has_key(list, key), |key: Seq<char>| list[index_of(list, key)].1)
}

/// The entries of `list`, each key by its characters.
pub open spec fn entries_view<V>(list: Seq<(String, V)>) -> Seq<(Seq<char>, V)> {
    list.map_values(|entry: (String, V)| (entry.0@, entry.1))
}

/// Some entry of `order` has the key `key`.
pub open spec fn lists_key<V>(order: Seq<(Seq<char>, V)>, key: Seq<char>) -> bool {
    exists|i: int| 0 <= i < order.len() && (#[trigger] order[i]).0 == key
}

/// The position of an entry of `order` with the key `key`.
pub open spec fn place_of<V>(order: Seq<(Seq<char>, V)>, key: Seq<char>) -> int {
    choose|i: int| 0 <= i < order.len() && (#[trigger] order[i]).0 == key
}

/// `order` with `value` for `key`: in the place of the entry for `key`
/// where there is one, and at the end where there is none.
pub open spec fn with_entry<V>(order: Seq<(Seq<char>, V)>, key: Seq<char>, value: V) -> Seq<
    (Seq<char>, V),
> {
    if lists_key(order, key) {
        order.update(place_of(order, key), (key, value))
    } else {
        order.push((key, value))
    }
}

/// `order` without the entry for `key`.
pub open spec fn without_entry<V>(order: Seq<(Seq<char>, V)>, key: Seq<char>) -> Seq<
    (Seq<char>, V),
> {
    if lists_key(order, key) {
        order.remove(place_of(order, key))
    } else {
        order
    }
}

/// In a list with distinct keys, the place of a key is the place of its
/// entry.
pub proof fn lemma_place<V>(list: Seq<(String, V)>, i: int)
    requires
        distinct_keys(list),
        0 <= i < list.len(),
    ensures
        lists_key(entries_view(list), list[i].0@),
        place_of(entries_view(list), list[i].0@) == i,
{
    let order = entries_view(list);
    let key = list[i].0@;
    assert(order[i].0 == key);
    let j = place_of(order, key);
    assert(0 <= j < order.len() && order[j].0 == key);
    if j < i {
        assert(list[j].0@ != list[i].0@);
    } else if i < j {
        assert(list[i].0@ != list[j].0@);
    }
}

/// A key is listed among the entries just where it is among their views.
pub proof fn lemma_lists_key<V>(list: Seq<(String, V)>, key: Seq<char>)
    ensures
        lists_key(entries_view(list), key) == has_key(list, key),
{
    let order = entries_view(list);
    if lists_key(order, key) {
        let i = place_of(order, key);
        assert(list[i].0@ == key);
    }
    if has_key(list, key) {
        let i = index_of(list, key);
        assert(order[i].0 == key);
    }
}

/// In a list with distinct keys, each entry is what the map holds for its key.
pub proof fn lemma_listing_entry<V>(list: Seq<(String, V)>, i: int)
    requires
        distinct_keys(list),
        0 <= i < list.len(),
    ensures
        has_key(list, list[i].0@),
        index_of(list, list[i].0@) == i,
        listing_map(list).contains_key(list[i].0@),
        listing_map(list)[list[i].0@] == list[i].1,
{
    let key = list[i].0@;
    let j = index_of(list, key);
    assert(0 <= j < list.len() && list[j].0@ == key);
    if j < i {
        assert(list[j].0@ != list[i].0@);
    } else if i < j {
        assert(list[i].0@ != list[j].0@);
    }
}

/// Appending an entry with a new key adds that key to the map.
pub proof fn lemma_listing_push<V>(list: Seq<(String, V)>, key: String, value: V)
    requires
        distinct_keys(list),
        !has_key(list, key@),
    ensures
        distinct_keys(list.push((key, value))),
        listing_map(list.push((key, value))) == listing_map(list).insert(key@, value),
{
    let longer = list.push((key, value));
    assert forall|i: int, j: int| 0 <= i < j < longer.len() implies (#[trigger] longer[i]).0@ != (
    #[trigger] longer[j]).0@ by {
        if j < list.len() {
            assert(list[i].0@ != list[j].0@);
        } else {
            assert(list[i].0@ != key@);
        }
    }
    assert forall|k: Seq<char>| has_key(longer, k) <==> (k == key@ || has_key(list, k)) by {
        if has_key(longer, k) {
            let i = index_of(longer, k);
            if i < list.len() {
                assert(list[i].0@ == k);
            }
        }
        if k == key@ {
            assert(longer[list.len() as int].0@ == k);
        }
        if has_key(list, k) {
            let i = index_of(list, k);
            assert(longer[i].0@ == k);
        }
    }
    assert forall|k: Seq<char>| has_key(longer, k) implies #[trigger] listing_map(longer)[k]
        == listing_map(list).insert(key@, value)[k] by {
        if k == key@ {
            lemma_listing_entry(longer, list.len() as int);
        } else {
            let i = index_of(list, k);
            lemma_listing_entry(list, i);
            lemma_listing_entry(longer, i);
        }
    }
    assert(listing_map(longer) =~= listing_map(list).insert(key@, value));
}

/// Replacing the value of an entry replaces what the map holds for its key.
pub proof fn lemma_listing_update<V>(list: Seq<(String, V)>, i: int, key: String, value: V)
    requires
        distinct_keys(list),
        0 <= i < list.len(),
        key@ == list[i].0@,
    ensures
        distinct_keys(list.update(i, (key, value))),
        listing_map(list.update(i, (key, value))) == listing_map(list).insert(key@, value),
{
    let changed = list.update(i, (key, value));
    assert forall|a: int, b: int| 0 <= a < b < changed.len() implies (#[trigger] changed[a]).0@ != (
    #[trigger] changed[b]).0@ by {
        assert(list[a].0@ != list[b].0@);
    }
    assert forall|k: Seq<char>| has_key(changed, k) <==> (k == key@ || has_key(list, k)) by {
        if has_key(changed, k) {
            let j = index_of(changed, k);
            assert(list[j].0@ == k);
        }
        if k == key@ {
            assert(changed[i].0@ == k);
        }
        if has_key(list, k) {
            let j = index_of(list, k);
            assert(changed[j].0@ == k);
        }
    }
    assert forall|k: Seq<char>| has_key(changed, k) implies #[trigger] listing_map(changed)[k]
        == listing_map(list).insert(key@, value)[k] by {
        if k == key@ {
            lemma_listing_entry(changed, i);
        } else {
            let j = index_of(list, k);
            lemma_listing_entry(list, j);
            lemma_listing_entry(changed, j);
        }
    }
    assert(listing_map(changed) =~= listing_map(list).insert(key@, value));
}

/// Taking an entry out takes its key out of the map.
pub proof fn lemma_listing_remove<V>(list: Seq<(String, V)>, i: int)
    requires
        distinct_keys(list),
        0 <= i < list.len(),
    ensures
        distinct_keys(list.remove(i)),
        listing_map(list.remove(i)) == listing_map(list).remove(list[i].0@),
{
    let key = list[i].0@;
    let shorter = list.remove(i);
    assert forall|a: int, b: int| 0 <= a < b < shorter.len() implies (#[trigger] shorter[a]).0@ != (
    #[trigger] shorter[b]).0@ by {
        let a0 = if a < i { a } else { a + 1 };
        let b0 = if b < i { b } else { b + 1 };
        assert(list[a0].0@ != list[b0].0@);
    }
    assert forall|k: Seq<char>| has_key(shorter, k) <==> (k != key && has_key(list, k)) by {
        if has_key(shorter, k) {
            let j = index_of(shorter, k);
            let j0 = if j < i { j } else { j + 1 };
            assert(list[j0].0@ == k);
            if j0 < i {
                assert(list[j0].0@ != list[i].0@);
            } else {
                assert(list[i].0@ != list[j0].0@);
            }
        }
        if k != key && has_key(list, k) {
            let j = index_of(list, k);
            let j1 = if j < i { j } else { j - 1 };
            assert(shorter[j1].0@ == k);
        }
    }
    assert forall|k: Seq<char>| has_key(shorter, k) implies #[trigger] listing_map(shorter)[k]
        == listing_map(list).remove(key)[k] by {
        let j = index_of(shorter, k);
        let j0 = if j < i { j } else { j + 1 };
        lemma_listing_entry(shorter, j);
        lemma_listing_entry(list, j0);
    }
    assert(listing_map(shorter) =~= listing_map(list).remove(key));
}

/// A list with distinct keys stands for a finite map with one key per entry.
pub proof fn lemma_listing_len<V>(list: Seq<(String, V)>)
    requires
        distinct_keys(list),
    ensures
        listing_map(list).dom().finite(),
        listing_map(list).dom().len() == list.len(),
    decreases list.len(),
{
    if list.len() == 0 {
        assert(listing_map(list).dom() =~= Set::<Seq<char>>::empty());
    } else {
        let front = list.drop_last();
        let last = list.last();
        assert forall|i: int, j: int| 0 <= i < j < front.len() implies (#[trigger] front[i]).0@ != (
        #[trigger] front[j]).0@ by {
            assert(list[i].0@ != list[j].0@);
        }
        if has_key(front, last.0@) {
            let i = index_of(front, last.0@);
            assert(list[i].0@ != list[list.len() - 1].0@);
        }
        lemma_listing_len(front);
        lemma_listing_push(front, last.0, last.1);
        assert(front.push((last.0, last.1)) =~= list);
        assert(listing_map(list).dom() =~= listing_map(front).dom().insert(last.0@));
    }
}

/// Whether `a` and `b` are the same text.
pub fn same_text(a: &str, b: &str) -> (same: bool)
    ensures
        same == (a@ == b@),
{
    let left = a.as_bytes();
    let right = b.as_bytes();
    proof {
        encode_utf8_decode_utf8(a@);
        encode_utf8_decode_utf8(b@);
    }
    if left.len() != right.len() {
        return false;
    }
    let mut at: usize = 0;
    while at < left.len()
        invariant
            at <= left@.len(),
            left@.len() == right@.len(),
            left@ == encode_utf8(a@),
            right@ == encode_utf8(b@),
            forall|before: int| 0 <= before < at ==> left@[before] == right@[before],
        decreases left@.len() - at,
    {
        if left[at] != right[at] {
            return false;
        }
        at += 1;
    }
    assert(left@ =~= right@);
    true
}

/// A map from strings to values, kept as a list of entries in the order in
/// which the keys first came.
#[derive(Debug)]
pub struct StringMap<V> {
    list: Vec<(String, V)>,
}

impl<V> View for StringMap<V> {
    type V = Map<Seq<char>, V>;

    closed spec fn view(&self) -> Map<Seq<char>, V> {
        listing_map(self.list@)
    }
}

impl<V> StringMap<V> {
    #[verifier::type_invariant]
    spec fn distinct(&self) -> bool {
        distinct_keys(self.list@)
    }

    /// The entries, in the order in which their keys first came.
    pub closed spec fn listing(&self) -> Seq<(String, V)> {
        self.list@
    }

    /// The entries, each key by its characters, in the order in which the
    /// keys first came.
    pub open spec fn order(&self) -> Seq<(Seq<char>, V)> {
        entries_view(self.listing())
    }

    /// A map without entries.
    pub fn new() -> (map: Self)
        ensures
            map@ == Map::<Seq<char>, V>::empty(),
            map.order() == Seq::<(Seq<char>, V)>::empty(),
            distinct_keys(map.listing()),
    {
        let map = StringMap { list: Vec::new() };
        assert(map@ =~= Map::<Seq<char>, V>::empty());
        assert(map.order() =~= Seq::<(Seq<char>, V)>::empty());
        map
    }

    /// The entries, in the order in which their keys first came.
    pub fn entries(&self) -> (list: &Vec<(String, V)>)
        ensures
            list@ == self.listing(),
            distinct_keys(list@),
            self@ == listing_map(list@),
    {
        proof {
            use_type_invariant(self);
        }
        &self.list
    }

    /// The number of entries.
    pub fn len(&self) -> (count: usize)
        ensures
            self@.dom().finite(),
            count == self@.len(),
    {
        proof {
            use_type_invariant(self);
            lemma_listing_len(self.list@);
        }
        self.list.len()
    }

    /// Moves the entries out and leaves the map empty.
    fn take_list(&mut self) -> (list: Vec<(String, V)>)
        ensures
            list == old(self).list,
            final(self).list@.len() == 0,
    {
        let mut taken = StringMap { list: Vec::new() };
        std::mem::swap(self, &mut taken);
        taken.list
    }

    /// The position of the entry for `key`.
    fn position(&self, key: &str) -> (found: Option<usize>)
        ensures
            match found {
                Some(i) => i < self.list@.len() && self.list@[i as int].0@ == key@,
                None => !has_key(self.list@, key@),
            },
    {
        let mut i: usize = 0;
        while i < self.list.len()
            invariant
                i <= self.list@.len(),
                forall|j: int| 0 <= j < i ==> (#[trigger] self.list@[j]).0@ != key@,
            decreases self.list@.len() - i,
        {
            if same_text(self.list[i].0.as_str(), key) {
                return Some(i);
            }
            i += 1;
        }
        None
    }

    /// Whether the map has an entry for `key`.
    pub fn contains_key(&self, key: &str) -> (found: bool)
        ensures
            found == self@.contains_key(key@),
    {
        self.position(key).is_some()
    }

    /// The value for `key`, if the map has one.
    pub fn get(&self, key: &str) -> (value: Option<&V>)
        ensures
            match value {
                Some(v) => self@.contains_key(key@) && *v == self@[key@],
                None => !self@.contains_key(key@),
            },
    {
        match self.position(key) {
            Some(i) => {
                proof {
                    use_type_invariant(self);
                    lemma_listing_entry(self.list@, i as int);
                }
                Some(&self.list[i].1)
            },
            None => None,
        }
    }

    /// Sets the value for `key`, and returns the value it had before.
    pub fn insert(&mut self, key: String, value: V) -> (previous: Option<V>)
        ensures
            final(self)@ == old(self)@.insert(key@, value),
            final(self).order() == with_entry(old(self).order(), key@, value),
            distinct_keys(final(self).listing()),
            match previous {
                Some(v) => old(self)@.contains_key(key@) && v == old(self)@[key@],
                None => !old(self)@.contains_key(key@),
            },
    {
        proof {
            use_type_invariant(&*self);
        }
        let found = self.position(key.as_str());
        let mut list = self.take_list();
        match found {
            Some(i) => {
                proof {
                    lemma_listing_entry(list@, i as int);
                    lemma_listing_update(list@, i as int, key, value);
                    lemma_place(list@, i as int);
                    assert(entries_view(list@.update(i as int, (key, value))) =~= entries_view(
                        list@,
                    ).update(i as int, (key@, value)));
                }
                let mut entry = (key, value);
                std::mem::swap(&mut list[i], &mut entry);
                *self = StringMap { list };
                Some(entry.1)
            },
            None => {
                proof {
                    lemma_listing_push(list@, key, value);
                    lemma_lists_key(list@, key@);
                    assert(entries_view(list@.push((key, value))) =~= entries_view(list@).push(
                        (key@, value),
                    ));
                }
                list.push((key, value));
                *self = StringMap { list };
                None
            },
        }
    }

    /// Takes the entry for `key` out, and returns the value it had.
    pub fn remove(&mut self, key: &str) -> (previous: Option<V>)
        ensures
            final(self)@ == old(self)@.remove(key@),
            final(self).order() == without_entry(old(self).order(), key@),
            distinct_keys(final(self).listing()),
            match previous {
                Some(v) => old(self)@.contains_key(key@) && v == old(self)@[key@],
                None => !old(self)@.contains_key(key@),
            },
    {
        proof {
            use_type_invariant(&*self);
        }
        match self.position(key) {
            Some(i) => {
                let mut list = self.take_list();
                proof {
                    lemma_listing_entry(list@, i as int);
                    lemma_listing_remove(list@, i as int);
                    lemma_place(list@, i as int);
                    assert(entries_view(list@.remove(i as int)) =~= entries_view(list@).remove(
                        i as int,
                    ));
                }
                let entry = list.remove(i);
                *self = StringMap { list };
                Some(entry.1)
            },
            None => {
                proof {
                    lemma_lists_key(self.list@, key@);
                }
                assert(self@.remove(key@) =~= self@);
                None
            },
        }
    }
}

} // verus!
