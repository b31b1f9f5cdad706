use watchdog::{Action, Error, Event, Expired, Signal, State, Watchdog};

const RESET: Event = Event::Signal(Signal::Reset);
const STOP: Event = Event::Signal(Signal::Stop);

#[test]
fn watchdog_works() {
    // One tick is one millisecond here.
    let watchdog = Watchdog::with_timeout(1000);

    let mut machine = watchdog.run(0);
    let mut now: u64 = 0;

    for _ in 0..100 {
        now += 500;
        assert_eq!(machine.step(Event::Elapsed, now), Ok(Action::Continue));
        assert_eq!(machine.step(RESET, now), Ok(Action::Rearm));
    }
    assert_eq!(now, 50_000);

    // Let the watchdog expire: one full timeout after the last reset.
    assert_eq!(machine.timer(), Some(51_000));
    assert_eq!(machine.step(Event::Elapsed, now + 999), Ok(Action::Continue));
    assert_eq!(machine.state(), State::Armed);
    assert_eq!(machine.step(Event::Elapsed, now + 1000), Ok(Action::Expire(Expired)));

    assert!(machine.step(RESET, now + 1000).is_err());
}

#[test]
fn watchdog_stops_then_restarts() {
    let watchdog = Watchdog::with_timeout(1000);

    let mut machine = watchdog.run(0);

    // sleep, then reset.
    assert_eq!(machine.step(RESET, 500), Ok(Action::Rearm));

    // sleep, then stop.
    assert_eq!(machine.step(STOP, 1000), Ok(Action::Suspend));

    // sleep long, then assert there was no expiry.
    assert_eq!(machine.timer(), None);
    assert_eq!(machine.step(Event::Elapsed, 6000), Ok(Action::Continue));
    assert_eq!(machine.state(), State::Suspended);

    // Let the watchdog expire.
    assert_eq!(machine.step(RESET, 6000), Ok(Action::Rearm)); // resume
    assert_eq!(machine.timer(), Some(7000));
    assert_eq!(machine.step(Event::Elapsed, 6999), Ok(Action::Continue));
    assert_eq!(machine.step(Event::Elapsed, 7000), Ok(Action::Expire(Expired)));

    assert!(machine.step(RESET, 7000).is_err());
}

#[test]
fn dropping_every_sender_shuts_down_without_a_notice() {
    let mut machine = Watchdog::with_timeout(1000).run(0);
    assert_eq!(machine.step(Event::Closed, 0), Ok(Action::Shutdown));
    assert_eq!(machine.state(), State::Terminated);
    assert_eq!(machine.step(Event::Elapsed, 5000), Err(Error::Inactive));
    assert_eq!(machine.step(Event::Closed, 5000), Err(Error::Inactive));
}

#[test]
fn starts_armed_with_one_full_timeout() {
    let watchdog = Watchdog::with_timeout(250);
    assert_eq!(watchdog.duration(), 250);
    let machine = watchdog.run(40);
    assert_eq!(machine.state(), State::Armed);
    assert!(machine.is_active());
    assert_eq!(machine.timer(), Some(290));
    assert!(!machine.is_due(289));
    assert!(machine.is_due(290));
    assert!(machine.is_due(u64::MAX));
}

#[test]
fn zero_timeout_fires_at_once() {
    let mut machine = Watchdog::with_timeout(0).run(17);
    assert!(machine.is_due(17));
    assert_eq!(machine.step(Event::Elapsed, 17), Ok(Action::Expire(Expired)));
}

#[test]
fn fires_at_most_once() {
    let mut machine = Watchdog::with_timeout(10).run(0);
    let mut fired = 0;
    for now in 0..100u64 {
        if machine.step(Event::Elapsed, now) == Ok(Action::Expire(Expired)) {
            fired += 1;
        }
    }
    assert_eq!(fired, 1);
    assert_eq!(machine.state(), State::Terminated);
}

#[test]
fn expired_watchdog_refuses_every_signal() {
    let mut machine = Watchdog::with_timeout(10).run(0);
    assert_eq!(machine.step(Event::Elapsed, 10), Ok(Action::Expire(Expired)));
    let after = machine;
    assert_eq!(machine.step(RESET, 11), Err(Error::Inactive));
    assert_eq!(machine.step(STOP, 12), Err(Error::Inactive));
    assert_eq!(machine, after);
    assert_eq!(machine.timer(), None);
    assert!(!machine.is_active());
}

#[test]
fn suspended_watchdog_never_fires() {
    let mut machine = Watchdog::with_timeout(10).run(0);
    assert_eq!(machine.step(STOP, 3), Ok(Action::Suspend));
    assert!(!machine.is_active());
    assert!(!machine.is_due(u64::MAX));
    assert_eq!(machine.step(Event::Elapsed, 10), Ok(Action::Continue));
    assert_eq!(machine.step(STOP, 500), Ok(Action::Suspend));
    assert_eq!(machine.step(Event::Elapsed, u64::MAX), Ok(Action::Continue));
    assert_eq!(machine.state(), State::Suspended);
}

#[test]
fn reset_grants_the_full_timeout_not_the_remainder() {
    let mut machine = Watchdog::with_timeout(10).run(0);
    // Nine of ten ticks are used up when the countdown is suspended.
    assert_eq!(machine.step(STOP, 9), Ok(Action::Suspend));
    assert_eq!(machine.step(RESET, 20), Ok(Action::Rearm));
    assert_eq!(machine.timer(), Some(30));
    assert_eq!(machine.step(Event::Elapsed, 21), Ok(Action::Continue));
    assert_eq!(machine.step(Event::Elapsed, 29), Ok(Action::Continue));
    assert_eq!(machine.step(Event::Elapsed, 30), Ok(Action::Expire(Expired)));
}

#[test]
fn reset_while_armed_restarts_the_countdown() {
    let mut machine = Watchdog::with_timeout(10).run(0);
    assert_eq!(machine.step(RESET, 9), Ok(Action::Rearm));
    assert_eq!(machine.timer(), Some(19));
    assert_eq!(machine.step(Event::Elapsed, 10), Ok(Action::Continue));
    assert_eq!(machine.step(Event::Elapsed, 19), Ok(Action::Expire(Expired)));
}

#[test]
fn deadline_does_not_overflow() {
    let mut machine = Watchdog::with_timeout(u64::MAX).run(u64::MAX);
    assert_eq!(machine.timer(), Some(2 * (u64::MAX as u128)));
    assert_eq!(machine.step(Event::Elapsed, u64::MAX), Ok(Action::Continue));

    let mut machine = Watchdog::with_timeout(u64::MAX).run(0);
    assert_eq!(machine.step(Event::Elapsed, u64::MAX - 1), Ok(Action::Continue));
    assert_eq!(machine.step(Event::Elapsed, u64::MAX), Ok(Action::Expire(Expired)));
}

#[test]
fn clock_reading_before_the_last_reset_is_not_due() {
    let mut machine = Watchdog::with_timeout(5).run(100);
    assert!(!machine.is_due(0));
    assert_eq!(machine.step(Event::Elapsed, 99), Ok(Action::Continue));
    assert_eq!(machine.state(), State::Armed);
}

#[test]
fn signal_defaults_to_reset() {
    assert_eq!(Signal::default(), Signal::Reset);
    assert_ne!(Signal::default(), Signal::Stop);
    assert_eq!(Expired::default(), Expired);
}

#[test]
fn inactive_error_has_its_message() {
    assert_eq!(
        Error::Inactive.message(),
        "Watchdog is no longer active due to having dropped"
    );
}
