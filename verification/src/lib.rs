//! A watchdog timer as a deterministic state machine.
//!
//! The watchdog enforces a maximum idle time between keep-alive signals. This
//! crate holds its decisions only: every function takes the current time as a
//! plain tick count and never reads a clock, waits or sends by itself, so the
//! whole behaviour is stated in contracts and proved.

pub mod error;
pub mod laws;
pub mod machine;
pub mod signal;
pub mod trace;
pub mod watchdog;

pub use error::Error;
pub use machine::{Action, Event, Model, State, Timed};
pub use signal::{Expired, Signal};
pub use watchdog::{EventLoop, Outcome, Watchdog};
