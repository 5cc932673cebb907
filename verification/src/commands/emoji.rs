//! The commands that answer with an emoji.

use vstd::prelude::*;

verus! {

/// What the bot answers to `cat`.
pub const CAT: &'static str = ":cat:";

/// What the bot answers to `sheep`.
pub const SHEEP: &'static str = ":sheep:";

/// What the bird says of the animal `rest` that it was asked for, and of
/// itself where it was asked for none.
pub fn bird(nothing_asked: bool, rest: &str) -> (text: String)
    ensures
        text@ == if nothing_asked {
            ":bird: can find animals for you."@
        } else {
            ":bird: could not find animal named: `"@ + rest@ + "`."@
        },
{
    if nothing_asked {
        String::from_str(":bird: can find animals for you.")
    } else {
        String::from_str(":bird: could not find animal named: `").concat(rest).concat("`.")
    }
}

} // verus!
