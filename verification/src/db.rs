//! Where the bot keeps what it remembers.

use vstd::prelude::*;

verus! {

/// The address of the database server.
pub const DATABASE_URI: &'static str = "mongodb://localhost:27017/";

/// The name of the bot's database.
pub const DATABASE_NAME: &'static str = "ornery-bot";

} // verus!
