//! The values that travel into and out of a watchdog.

use vstd::prelude::*;

verus! {

/// Control message sent to a watchdog.
#[derive(Debug, Copy, Clone, PartialEq, Eq, Structural)]
pub enum Signal {
    /// Refresh the deadline and, where the countdown is suspended, resume it.
    Reset,
    /// Suspend the countdown without refreshing the deadline.
    Stop,
}

impl Default for Signal {
    /// The default signal is the keep-alive.
    fn default() -> (signal: Signal)
        ensures
            signal == Signal::Reset,
    {
        Signal::Reset
    }
}

/// Notice that a watchdog fired. It carries nothing but the fact.
#[derive(Debug, Clone, Copy, PartialEq, Eq, PartialOrd, Ord, Hash, Structural)]
pub struct Expired;

impl Default for Expired {
    fn default() -> (notice: Expired)
        ensures
            notice == Expired,
    {
        Expired
    }
}

} // verus!
