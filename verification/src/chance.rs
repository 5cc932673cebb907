//! Bindings to `rand`.  The contract in this file is not proved.

use rand::seq::SliceRandom;
use vstd::prelude::*;

verus! {

/// `SliceRandom::choose` with the thread's generator: one of `choices`,
/// whichever chance gives, and nothing where there are none.
#[verifier::external_body]
pub(crate) fn pick<'a, T>(choices: &'a Vec<T>) -> (choice: Option<&'a T>)
    ensures
        match choice {
            Some(item) => choices@.contains(*item),
            None => choices@.len() == 0,
        },
{
    choices.choose(&mut rand::thread_rng())
}

} // verus!
