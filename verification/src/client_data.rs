//! Records that are kept per guild, each stored as one JSON document in a
//! file of its own.

pub mod document;
pub mod emoji_data;
pub mod guild_data;

use crate::dumb_error::DumbError;
use std::hash::Hash;
use vstd::prelude::*;

verus! {

/// The number by which the chat service knows a guild.
#[derive(Clone, Copy, Debug, PartialEq, Eq, Structural, Hash)]
pub struct GuildId(pub u64);

/// The bytes of a file, where there is one.
pub open spec fn contents_view(contents: Option<&[u8]>) -> Option<Seq<u8>> {
    match contents {
        Some(bytes) => Some(bytes@),
        None => None,
    }
}

/// A record that is read from a file of its own and written back to it.
///
/// The record does not touch the file.  Whoever holds it reads the file at
/// `path` and hands its bytes to `from_file`, and writes the bytes that
/// `save` returns back to that file.
pub trait ClientData: Sized {
    type Id: 'static + Sync + Send + Eq + Hash + Copy;

    /// The path of the file for `id`.
    spec fn path_of(id: Self::Id) -> Seq<char>;

    /// The record came from `from_file` for `id` on a file with `contents`,
    /// or on no file.
    spec fn loaded_from(&self, id: Self::Id, contents: Option<Seq<u8>>) -> bool;

    /// The path of the file for `id`.
    fn path(id: Self::Id) -> (path: String)
        ensures
            path@ == Self::path_of(id),
    ;

    /// The record for `id` as the file's bytes give it.  Where there is no
    /// file, or its bytes are no JSON document, the record is empty.
    fn from_file(id: Self::Id, contents: Option<&[u8]>) -> (record: Self)
        ensures
            record.loaded_from(id, contents_view(contents)),
    ;

    /// The record holds what `before` held: saving changed nothing of it
    /// that a load gives back.
    spec fn unchanged_since(&self, before: &Self) -> bool;

    /// `bytes` are what is to be written to the file of the record as it
    /// stands.
    spec fn written_as(&self, bytes: Seq<u8>) -> bool;

    /// The bytes to write to the record's file, or the error met in making
    /// them.  The record stays as it is, whatever comes of it.
    fn save(&mut self) -> (outcome: Result<Vec<u8>, DumbError>)
        ensures
            final(self).unchanged_since(old(self)),
            outcome matches Ok(bytes) ==> final(self).written_as(bytes@),
    ;
}

} // verus!
