//! The list of the scripts in the store, one line each.

use vstd::prelude::*;
use vstd::string::*;
use crate::text::{pad, padded};

verus! {

/// The width of the column that holds the names.
pub const NAME_WIDTH: usize = 20;

/// The line that lists a script: its name, filled up to `NAME_WIDTH`
/// characters, a space, and its description.
pub open spec fn listed(name: Seq<char>, description: Seq<char>) -> Seq<char> {
    padded(name, NAME_WIDTH as nat) + " "@ + description
}

/// Formats the line that lists the script `name`.
pub fn listing_line(name: &str, description: &str) -> (line: String)
    ensures
        line@ == listed(name@, description@),
{
    pad(name, NAME_WIDTH).concat(" ").concat(description)
}

} // verus!
