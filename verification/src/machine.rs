//! The mathematical model of the watchdog's event loop.
//!
//! Time is a count of ticks of one monotonic clock, read by the caller. The
//! model owns a timeout and the tick at which the countdown last started; the
//! deadline is their sum. It reacts to one event at a time and is never in a
//! half-updated state.

use vstd::prelude::*;
use crate::error::Error;
use crate::signal::{Expired, Signal};

verus! {

/// Where the event loop stands.
#[derive(Debug, Clone, Copy, PartialEq, Eq, Structural)]
pub enum State {
    /// Counting down: the timer may fire once the deadline is reached.
    Armed,
    /// The countdown is suspended: the timer cannot fire.
    Suspended,
    /// The loop has exited, by expiry or by shutdown, and stays so.
    Terminated,
}

/// What the event loop reacts to.
#[derive(Debug, Clone, Copy, PartialEq, Eq, Structural)]
pub enum Event {
    /// A control signal arrived.
    Signal(Signal),
    /// Every sender is gone and nothing is pending.
    Closed,
    /// The timer woke the loop.
    Elapsed,
}

/// What the caller of the event loop has to do after one event.
#[derive(Debug, Clone, Copy, PartialEq, Eq, Structural)]
pub enum Action {
    /// The countdown restarted: set the timer to the new deadline.
    Rearm,
    /// The countdown is suspended: wait for signals only.
    Suspend,
    /// Nothing changed: keep waiting as before.
    Continue,
    /// The watchdog fired: deliver the notice, then leave the loop.
    Expire(Expired),
    /// The watchdog was shut down: leave the loop without a notice.
    Shutdown,
}

/// An event together with the tick at which the loop handles it.
#[derive(Debug, Clone, Copy, PartialEq, Eq, Structural)]
pub struct Timed {
    /// The clock reading when the event is handled.
    pub at: u64,
    /// The event.
    pub event: Event,
}

/// The event loop as a mathematical value.
pub struct Model {
    /// Where the loop stands.
    pub state: State,
    /// The idle time that the watchdog tolerates.
    pub timeout: nat,
    /// The tick at which the countdown last started: at spawn, or at the
    /// latest reset.
    pub armed_at: nat,
}

impl Model {
    /// The loop right after spawn at tick `now`: counting down a full timeout.
    pub open spec fn start(timeout: nat, now: nat) -> Model {
        Model { state: State::Armed, timeout, armed_at: now }
    }

    /// The tick from which the timer may fire.
    pub open spec fn deadline(self) -> nat {
        self.armed_at + self.timeout
    }

    /// Whether the timer fires at tick `now`: only while armed, and only from
    /// the deadline on.
    pub open spec fn due(self, now: nat) -> bool {
        self.state == State::Armed && now >= self.deadline()
    }

    /// The answer to `event` handled at tick `now`: what the caller has to
    /// do, or that the loop is already over.
    pub open spec fn react(self, event: Event, now: nat) -> Result<Action, Error> {
        if self.state == State::Terminated {
            Err(Error::Inactive)
        } else {
            Ok(
                match event {
                    Event::Signal(Signal::Reset) => Action::Rearm,
                    Event::Signal(Signal::Stop) => Action::Suspend,
                    Event::Closed => Action::Shutdown,
                    Event::Elapsed => if self.due(now) {
                        Action::Expire(Expired)
                    } else {
                        Action::Continue
                    },
                },
            )
        }
    }

    /// The loop after `event` was handled at tick `now`.
    pub open spec fn next(self, event: Event, now: nat) -> Model {
        match self.react(event, now) {
            Ok(Action::Rearm) => Model { state: State::Armed, armed_at: now, ..self },
            Ok(Action::Suspend) => Model { state: State::Suspended, ..self },
            Ok(Action::Expire(_)) | Ok(Action::Shutdown) => Model {
                state: State::Terminated,
                ..self
            },
            Ok(Action::Continue) | Err(_) => self,
        }
    }
}

} // verus!
