//! Errors of the shell's monitor handling.

use vstd::prelude::*;

verus! {

/// Errors about a monitor.
#[derive(Debug, Clone, Copy, PartialEq, Eq, Structural)]
pub enum MonitorError {
    /// The monitor has no connector name.
    NoConnector,
}

impl MonitorError {
    /// The message that describes the error.
    pub fn message(&self) -> (r: String)
        ensures
            r@ == "Connector not available for this monitor"@,
    {
        "Connector not available for this monitor".to_owned()
    }
}

} // verus!
