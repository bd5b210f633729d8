//! The polling loop's timer discipline: one poll at a time, and a tick that
//! finds a poll still running is skipped, not queued.

use vstd::prelude::*;

verus! {

/// Seconds between two ticks of the polling loop.
pub const POLL_PERIOD_SECS: u64 = 5;

/// What the polling loop is told.
#[derive(Clone, Copy, Debug, PartialEq, Eq, Structural)]
pub enum PollerEvent {
    /// The timer fired.
    Tick,
    /// The poll that was running has ended, well or badly.
    PollFinished,
}

/// What the polling loop does about it.
#[derive(Clone, Copy, Debug, PartialEq, Eq, Structural)]
pub enum PollerAction {
    /// Start a poll now.
    StartPoll,
    /// Let this tick pass: a poll is still running.
    Skip,
    /// Nothing to do.
    Nothing,
}

/// The polling loop's state.
#[derive(Clone, Copy, Debug, PartialEq, Eq, Structural)]
pub struct Poller {
    /// Whether a poll is running.
    pub in_flight: bool,
}

impl Poller {
    /// The poller after `event`, and what it does.
    pub open spec fn next(self, event: PollerEvent) -> (Poller, PollerAction) {
        match event {
            PollerEvent::Tick => if self.in_flight {
                (self, PollerAction::Skip)
            } else {
                (Poller { in_flight: true }, PollerAction::StartPoll)
            },
            PollerEvent::PollFinished => (Poller { in_flight: false }, PollerAction::Nothing),
        }
    }

    /// A poller with no poll running.
    pub fn new() -> (p: Poller)
        ensures
            p == (Poller { in_flight: false }),
    {
        Poller { in_flight: false }
    }

    /// Takes one event and answers with what to do.
    pub fn step(&mut self, event: PollerEvent) -> (action: PollerAction)
        ensures
            (*final(self), action) == old(self).next(event),
    {
        match event {
            PollerEvent::Tick => {
                if self.in_flight {
                    PollerAction::Skip
                } else {
                    self.in_flight = true;
                    PollerAction::StartPoll
                }
            },
            PollerEvent::PollFinished => {
                self.in_flight = false;
                PollerAction::Nothing
            },
        }
    }
}

/// How many polls the poller starts while it takes `events` in order.
pub open spec fn polls_started(p: Poller, events: Seq<PollerEvent>) -> nat
    decreases events.len(),
{
    if events.len() == 0 {
        0
    } else {
        let (after, action) = p.next(events[0]);
        let here: nat = if action == PollerAction::StartPoll {
            1
        } else {
            0
        };
        here + polls_started(after, events.drop_first())
    }
}

/// How many polls end during `events`, given whether one runs at the start:
/// an end is counted only while a poll is running.
pub open spec fn polls_ended(p: Poller, events: Seq<PollerEvent>) -> nat
    decreases events.len(),
{
    if events.len() == 0 {
        0
    } else {
        let here: nat = if events[0] == PollerEvent::PollFinished && p.in_flight {
            1
        } else {
            0
        };
        here + polls_ended(p.next(events[0]).0, events.drop_first())
    }
}

/// The poller after all of `events`.
pub open spec fn poller_after(p: Poller, events: Seq<PollerEvent>) -> Poller
    decreases events.len(),
{
    if events.len() == 0 {
        p
    } else {
        poller_after(p.next(events[0]).0, events.drop_first())
    }
}

/// The number of polls running.
pub open spec fn running(p: Poller) -> int {
    if p.in_flight {
        1
    } else {
        0
    }
}

/// A tick that finds a poll running is skipped and leaves no trace: the
/// poller is as before, and the end of the running poll starts nothing.
pub proof fn lemma_busy_tick_is_skipped(p: Poller)
    requires
        p.in_flight,
    ensures
        p.next(PollerEvent::Tick) == (p, PollerAction::Skip),
        p.next(PollerEvent::Tick).0.next(PollerEvent::PollFinished).1 == PollerAction::Nothing,
{
}

/// After any events whatever, the polls that run are those that ran at the
/// start, plus those started, minus those ended; and never more than one.
pub proof fn lemma_at_most_one_poll_in_flight(p: Poller, events: Seq<PollerEvent>)
    ensures
        running(poller_after(p, events)) == running(p) + polls_started(p, events) - polls_ended(
            p,
            events,
        ),
        running(p) + polls_started(p, events) - polls_ended(p, events) <= 1,
    decreases events.len(),
{
    if events.len() > 0 {
        lemma_at_most_one_poll_in_flight(p.next(events[0]).0, events.drop_first());
    }
}

} // verus!
