//! What reports show of an item.

use crate::analysis::ItemKey;
use vstd::prelude::*;
use vstd::string::StringExecFns;

verus! {

/// Reports on items.
pub struct TraitInfo();

impl TraitInfo {
    /// The line that a report shows for an item: its label, and a line
    /// break.
    pub fn show_item(it: &ItemKey) -> (line: String)
        ensures
            line@ == it@.label + "\n"@,
    {
        it.label.clone().concat("\n")
    }
}

} // verus!
