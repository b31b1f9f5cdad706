//! The watchdog and its event loop, as executable code.

use vstd::prelude::*;
use crate::error::Error;
use crate::machine::{Action, Event, Model, State, Timed};
use crate::signal::{Expired, Signal};
use crate::trace::{consumed, lemma_exit_is_final, lemma_extend, lemma_split, notices, replay};

verus! {

/// A watchdog that has not been spawned yet: it holds the timeout only.
#[derive(Debug, Copy, Clone, PartialEq, Eq, Structural)]
pub struct Watchdog {
    /// The timeout interval, in ticks.
    duration: u64,
}

impl View for Watchdog {
    type V = nat;

    /// A watchdog is its timeout.
    closed spec fn view(&self) -> nat {
        self.duration as nat
    }
}

/// The state of a spawned watchdog between two events.
#[derive(Debug, Copy, Clone, PartialEq, Eq, Structural)]
pub struct EventLoop {
    state: State,
    timeout: u64,
    armed_at: u64,
}

impl View for EventLoop {
    type V = Model;

    closed spec fn view(&self) -> Model {
        Model {
            state: self.state,
            timeout: self.timeout as nat,
            armed_at: self.armed_at as nat,
        }
    }
}

/// What became of a watchdog that was run over a recorded inbox.
#[derive(Debug, Copy, Clone, PartialEq, Eq, Structural)]
pub struct Outcome {
    /// The loop as the last consumed event left it.
    pub machine: EventLoop,
    /// How many events the loop consumed before it exited or the inbox ran
    /// dry.
    pub consumed: usize,
    /// The expiration notice, where the watchdog fired.
    pub notice: Option<Expired>,
}

impl Outcome {
    /// What the one who waits for the expiration observes: the notice where
    /// the watchdog fired, that the watchdog is inactive where its loop exited
    /// without firing, and nothing yet while the loop is alive.
    pub fn expiration(&self) -> (seen: Option<Result<Expired, Error>>)
        ensures
            seen == if self.notice.is_some() {
                Some(Ok::<Expired, Error>(Expired))
            } else if self.machine@.state == State::Terminated {
                Some(Err::<Expired, Error>(Error::Inactive))
            } else {
                None
            },
    {
        match self.notice {
            Some(notice) => Some(Ok(notice)),
            None => match self.machine.state {
                State::Terminated => Some(Err(Error::Inactive)),
                _ => None,
            },
        }
    }
}

impl EventLoop {
    /// Where the loop stands.
    pub fn state(&self) -> (state: State)
        ensures
            state == self@.state,
    {
        self.state
    }

    /// Whether the countdown is running, which is when the timer has to be
    /// armed.
    pub fn is_active(&self) -> (active: bool)
        ensures
            active == (self@.state == State::Armed),
    {
        match self.state {
            State::Armed => true,
            _ => false,
        }
    }

    /// The tick for which the timer has to be set: the deadline while the
    /// countdown is running, nothing otherwise.
    pub fn timer(&self) -> (deadline: Option<u128>)
        ensures
            match deadline {
                Some(tick) => self@.state == State::Armed && tick == self@.deadline(),
                None => self@.state != State::Armed,
            },
    {
        match self.state {
            State::Armed => Some(self.armed_at as u128 + self.timeout as u128),
            _ => None,
        }
    }

    /// Whether the timer fires at tick `now`.
    pub fn is_due(&self, now: u64) -> (due: bool)
        ensures
            due == self@.due(now as nat),
    {
        match self.state {
            State::Armed => now >= self.armed_at && now - self.armed_at >= self.timeout,
            _ => false,
        }
    }

    /// Handles one event at tick `now`, as one indivisible step.
    ///
    /// A loop that has exited refuses every event and stays as it is.
    pub fn step(&mut self, event: Event, now: u64) -> (reply: Result<Action, Error>)
        ensures
            reply == old(self)@.react(event, now as nat),
            final(self)@ == old(self)@.next(event, now as nat),
    {
        match self.state {
            State::Terminated => Err(Error::Inactive),
            _ => {
                let action = match event {
                    Event::Signal(Signal::Reset) => {
                        self.state = State::Armed;
                        self.armed_at = now;
                        Action::Rearm
                    },
                    Event::Signal(Signal::Stop) => {
                        self.state = State::Suspended;
                        Action::Suspend
                    },
                    Event::Closed => {
                        self.state = State::Terminated;
                        Action::Shutdown
                    },
                    Event::Elapsed => {
                        if self.is_due(now) {
                            self.state = State::Terminated;
                            Action::Expire(Expired)
                        } else {
                            Action::Continue
                        }
                    },
                };
                Ok(action)
            },
        }
    }
}

impl Watchdog {
    /// Makes a watchdog with the given timeout, in ticks.
    #[must_use]
    pub fn with_timeout(duration: u64) -> (watchdog: Watchdog)
        ensures
            watchdog@ == duration,
    {
        Watchdog { duration }
    }

    /// The timeout, in ticks.
    pub fn duration(&self) -> (duration: u64)
        ensures
            duration == self@,
    {
        self.duration
    }

    /// Spawns the watchdog at tick `now`: the loop starts armed, counting down
    /// one full timeout.
    #[must_use]
    pub fn run(self, now: u64) -> (machine: EventLoop)
        ensures
            machine@ == Model::start(self@, now as nat),
    {
        EventLoop { state: State::Armed, timeout: self.duration, armed_at: now }
    }

    /// Spawns the watchdog at tick `now` and runs its event loop over a
    /// recorded inbox, until the loop exits or the inbox runs dry.
    pub fn event_loop(self, now: u64, inbox: &Vec<Timed>) -> (outcome: Outcome)
        ensures
            outcome.machine@ == replay(Model::start(self@, now as nat), inbox@),
            outcome.consumed == consumed(Model::start(self@, now as nat), inbox@),
            outcome.notice == if notices(Model::start(self@, now as nat), inbox@) > 0 {
                Some(Expired)
            } else {
                None
            },
    {
        let ghost start = Model::start(self@, now as nat);
        let mut machine = self.run(now);
        let mut notice: Option<Expired> = None;
        let mut i: usize = 0;
        while i < inbox.len()
            invariant_except_break
                machine@.state != State::Terminated,
                notice.is_none(),
                notices(start, inbox@.take(i as int)) == 0,
            invariant
                i <= inbox.len(),
                machine@ == replay(start, inbox@.take(i as int)),
                i == consumed(start, inbox@.take(i as int)),
            ensures
                machine@.state == State::Terminated || i == inbox.len(),
                notice == if notices(start, inbox@.take(i as int)) > 0 {
                    Some(Expired)
                } else {
                    None
                },
            decreases inbox.len() - i,
        {
            let timed = inbox[i];
            proof {
                lemma_extend(start, inbox@, i as int);
            }
            let reply = machine.step(timed.event, timed.at);
            i += 1;
            match reply {
                Ok(Action::Expire(fired)) => {
                    notice = Some(fired);
                    break ;
                },
                Ok(Action::Shutdown) => {
                    break ;
                },
                _ => {},
            }
        }
        proof {
            lemma_split(start, inbox@, i as int);
            if i < inbox.len() {
                lemma_exit_is_final(machine@, inbox@.skip(i as int));
            } else {
                assert(inbox@.skip(i as int).len() == 0);
            }
        }
        Outcome { machine, consumed: i, notice }
    }
}

} // verus!
