//! The records that have been loaded, by guild.

use crate::client_data::{ClientData, GuildId};
use std::collections::hash_map::Entry;
use std::collections::HashMap;
use vstd::prelude::*;

verus! {

broadcast use vstd::std_specs::hash::group_hash_axioms;

/// The bytes that were read, where a file was there.
pub open spec fn read_view(contents: Option<Vec<u8>>) -> Option<Seq<u8>> {
    match contents {
        Some(bytes) => Some(bytes@),
        None => None,
    }
}

/// The records of one kind that have been loaded, each under the number of
/// its guild.  A record is loaded when it is first asked for and then kept.
#[derive(Debug)]
pub struct Store<T> {
    pub records: HashMap<u64, T>,
}

impl<T> View for Store<T> {
    type V = Map<u64, T>;

    open spec fn view(&self) -> Map<u64, T> {
        self.records@
    }
}

impl<T: ClientData<Id = GuildId>> Store<T> {
    /// A store in which nothing is loaded.
    pub fn new() -> (store: Self)
        ensures
            store@ == Map::<u64, T>::empty(),
    {
        Store { records: HashMap::new() }
    }

    /// Whether the record of the guild `id` is loaded.
    pub fn is_loaded(&self, id: GuildId) -> (loaded: bool)
        ensures
            loaded == self@.contains_key(id.0),
    {
        self.records.contains_key(&id.0)
    }

    /// The record of the guild `id`, to read and to change.  Where it is
    /// loaded, it is handed out as it is and `read` is not looked at.  Where
    /// it is not, `read` is asked for the bytes of the record's file, and
    /// the record that they give is loaded.
    pub fn get_or_load<F: FnOnce() -> Option<Vec<u8>>>(&mut self, id: GuildId, read: F) -> (record:
        &mut T)
        requires
            call_requires(read, ()),
        ensures
            old(self)@.contains_key(id.0) ==> *record == old(self)@[id.0],
            !old(self)@.contains_key(id.0) ==> exists|contents: Option<Vec<u8>>|
                call_ensures(read, (), contents) && #[trigger] record.loaded_from(
                    id,
                    read_view(contents),
                ),
            final(self)@ == old(self)@.insert(id.0, *final(record)),
    {
        match self.records.entry(id.0) {
            Entry::Occupied(found) => found.into_mut(),
            Entry::Vacant(free) => {
                let contents = read();
                let record = match &contents {
                    Some(bytes) => T::from_file(id, Some(bytes.as_slice())),
                    None => T::from_file(id, None),
                };
                assert(record.loaded_from(id, read_view(contents)));
                free.insert(record)
            },
        }
    }
}

} // verus!
