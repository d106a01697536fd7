//! Listing VM definitions.
//!
//! Printing is plain output done by the caller; the definitions
//! themselves are read straight from the configuration.

use vstd::prelude::*;

verus! {

/// A listing request.
pub struct ListCmd {
    /// Print debug information verbosely.
    pub debug: bool,
}

/// A listing request, as the reduced command surface takes it.
pub struct ListCmdArgs {
    /// Print debug information verbosely.
    pub debug: bool,
}

} // verus!
