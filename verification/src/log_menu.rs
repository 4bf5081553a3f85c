//! The log tab of the terminal interface.

use vstd::prelude::*;

verus! {

/// The log tab; what it shows is the log buffer.
pub struct LogMenu {}

impl LogMenu {
    /// The log tab.
    pub fn new() -> (r: LogMenu)
    {
        LogMenu {}
    }
}

} // verus!
