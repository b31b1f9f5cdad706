//! The one failure a watchdog reports.

use vstd::prelude::*;

verus! {

/// Why a watchdog refused an event.
#[derive(Debug, Clone, Copy, PartialEq, Eq, Structural)]
pub enum Error {
    /// The watchdog is no longer active: it has expired or was shut down.
    Inactive,
}

impl Error {
    /// The text shown to a person for this error.
    pub fn message(&self) -> (text: String)
        ensures
            text@ == "Watchdog is no longer active due to having dropped"@,
    {
        "Watchdog is no longer active due to having dropped".to_owned()
    }
}

} // verus!
