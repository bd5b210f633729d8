use now_playing::poller::{Poller, PollerAction, PollerEvent, POLL_PERIOD_SECS};

#[test]
fn period_is_five_seconds() {
    assert_eq!(POLL_PERIOD_SECS, 5);
}

#[test]
fn idle_tick_starts_a_poll() {
    let mut poller = Poller::new();
    assert!(!poller.in_flight);
    assert_eq!(poller.step(PollerEvent::Tick), PollerAction::StartPoll);
    assert!(poller.in_flight);
}

#[test]
fn slow_poll_makes_the_next_tick_skip() {
    let mut poller = Poller::new();
    assert_eq!(poller.step(PollerEvent::Tick), PollerAction::StartPoll);
    assert_eq!(poller.step(PollerEvent::Tick), PollerAction::Skip);
    assert_eq!(poller.step(PollerEvent::Tick), PollerAction::Skip);
    assert!(poller.in_flight);
    // The skipped ticks are not queued: the end of the poll starts nothing.
    assert_eq!(poller.step(PollerEvent::PollFinished), PollerAction::Nothing);
    assert!(!poller.in_flight);
    assert_eq!(poller.step(PollerEvent::Tick), PollerAction::StartPoll);
}

#[test]
fn never_two_polls_in_flight() {
    let events = [
        PollerEvent::Tick,
        PollerEvent::Tick,
        PollerEvent::PollFinished,
        PollerEvent::PollFinished,
        PollerEvent::Tick,
        PollerEvent::PollFinished,
        PollerEvent::Tick,
        PollerEvent::Tick,
        PollerEvent::Tick,
    ];
    let mut poller = Poller::new();
    let mut running: i64 = 0;
    for event in events {
        let was_running = poller.in_flight;
        let action = poller.step(event);
        if action == PollerAction::StartPoll {
            running += 1;
        }
        if event == PollerEvent::PollFinished && was_running {
            running -= 1;
        }
        assert!(running == 0 || running == 1);
        assert_eq!(poller.in_flight, running == 1);
    }
    assert_eq!(running, 1);
}

#[test]
fn stray_finish_changes_nothing() {
    let mut poller = Poller::new();
    assert_eq!(poller.step(PollerEvent::PollFinished), PollerAction::Nothing);
    assert_eq!(poller, Poller::new());
}
