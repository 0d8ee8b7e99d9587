//! The launcher's command line.

use vstd::prelude::*;

verus! {

/// Command-line arguments of the launcher.
pub struct Args {
    /// Toggle the visibility of the running launcher.
    pub toggle: bool,
}

} // verus!
