//! The source of events: redraw ticks and what the terminal reports, in one
//! ordered stream.
//!
//! The source is the producer's side of a channel. It is woken by its timer,
//! by the terminal, or by the signal to stop, and decides each time what to
//! put into the channel. Waiting and sending are the caller's business.

use vstd::prelude::*;
use crate::keys::TerminalEvent;

verus! {

/// The seconds between two ticks.
pub const TICK_INTERVAL_SECS: u64 = 1;

/// One event of the stream.
#[derive(Clone, Copy, Debug, PartialEq, Eq, Structural)]
pub enum Event {
    /// A tick: time to draw the screen.
    Draw,
    /// Something that the terminal reported.
    Key(TerminalEvent),
}

/// What wakes the source.
#[derive(Clone, Copy, Debug, PartialEq, Eq, Structural)]
pub enum Wake {
    /// The timer ran out.
    Timer,
    /// The terminal reported something, or its stream ended or failed
    /// (`None`).
    Input(Option<TerminalEvent>),
    /// The signal to stop was given.
    Cancelled,
}

/// What a running source puts into the channel when it is woken.
pub open spec fn emitted_on(wake: Wake) -> Option<Event> {
    match wake {
        Wake::Timer => Some(Event::Draw),
        Wake::Input(Some(input)) => Some(Event::Key(input)),
        Wake::Input(None) => None,
        Wake::Cancelled => None,
    }
}

/// Whether the source still runs after it was woken by each of `wakes` in
/// turn: it runs until the signal to stop.
pub open spec fn running_after(wakes: Seq<Wake>) -> bool
    decreases wakes.len(),
{
    if wakes.len() == 0 {
        true
    } else {
        running_after(wakes.drop_last()) && wakes.last() != Wake::Cancelled
    }
}

/// The events that the source has put into the channel, in their order,
/// after it was started and then woken by each of `wakes` in turn.
pub open spec fn events_after(wakes: Seq<Wake>) -> Seq<Event>
    decreases wakes.len(),
{
    if wakes.len() == 0 {
        seq![Event::Draw]
    } else {
        let before = events_after(wakes.drop_last());
        if running_after(wakes.drop_last()) {
            match emitted_on(wakes.last()) {
                Some(event) => before.push(event),
                None => before,
            }
        } else {
            before
        }
    }
}

/// The producer's side of the stream of events.
#[derive(Debug, PartialEq, Eq)]
pub struct EventLoop {
    running: bool,
}

impl View for EventLoop {
    type V = bool;

    /// Whether the source still runs.
    closed spec fn view(&self) -> bool {
        self.running
    }
}

impl EventLoop {
    /// A new source, and the tick that it emits at once.
    pub fn start() -> (r: (EventLoop, Event))
        ensures
            r.0@,
            r.1 == Event::Draw,
    {
        (EventLoop { running: true }, Event::Draw)
    }

    /// Whether the source still runs. One that has stopped emits nothing
    /// more, and its channel is to be closed.
    pub fn is_running(&self) -> (running: bool)
        ensures
            running == self@,
    {
        self.running
    }

    /// Wakes the source, and says what it puts into the channel: a tick for
    /// the timer, and what the terminal reported. The signal to stop stops
    /// it, and a source that has stopped emits nothing.
    pub fn on_wake(&mut self, wake: Wake) -> (emitted: Option<Event>)
        ensures
            final(self)@ == (old(self)@ && wake != Wake::Cancelled),
            emitted == (if old(self)@ {
                emitted_on(wake)
            } else {
                None
            }),
    {
        if !self.running {
            return None;
        }
        match wake {
            Wake::Timer => Some(Event::Draw),
            Wake::Input(Some(input)) => Some(Event::Key(input)),
            Wake::Input(None) => None,
            Wake::Cancelled => {
                self.running = false;
                None
            },
        }
    }
}

/// The first event of a source is a tick, whatever wakes the source later.
pub proof fn lemma_first_event_is_a_tick(wakes: Seq<Wake>)
    ensures
        events_after(wakes).len() > 0,
        events_after(wakes)[0] == Event::Draw,
    decreases wakes.len(),
{
    if wakes.len() > 0 {
        lemma_first_event_is_a_tick(wakes.drop_last());
    }
}

/// What a source has emitted stays emitted, in the same order: later
/// wake-ups only add events at the end.
pub proof fn lemma_events_are_kept_in_order(wakes: Seq<Wake>, more: Seq<Wake>)
    ensures
        events_after(wakes).is_prefix_of(events_after(wakes + more)),
    decreases more.len(),
{
    if more.len() == 0 {
        assert(wakes + more =~= wakes);
    } else {
        lemma_events_are_kept_in_order(wakes, more.drop_last());
        assert((wakes + more).drop_last() =~= wakes + more.drop_last());
    }
}

/// Once the signal to stop has woken the source, the source does not run,
/// and it emits nothing more, whatever wakes it later.
pub proof fn lemma_nothing_after_cancel(wakes: Seq<Wake>, more: Seq<Wake>)
    ensures
        !running_after(wakes.push(Wake::Cancelled) + more),
        events_after(wakes.push(Wake::Cancelled) + more) == events_after(wakes),
    decreases more.len(),
{
    let stopped = wakes.push(Wake::Cancelled);
    assert(stopped.drop_last() =~= wakes);
    if more.len() == 0 {
        assert(stopped + more =~= stopped);
    } else {
        lemma_nothing_after_cancel(wakes, more.drop_last());
        assert((stopped + more).drop_last() =~= stopped + more.drop_last());
    }
}

/// Waking a source step by step emits what `events_after` lists: the event
/// of a wake-up is the one that it adds to the list.
pub proof fn lemma_wake_adds_its_event(wakes: Seq<Wake>, wake: Wake)
    ensures
        running_after(wakes.push(wake)) == (running_after(wakes) && wake != Wake::Cancelled),
        events_after(wakes.push(wake)) == (match (if running_after(wakes) {
            emitted_on(wake)
        } else {
            None
        }) {
            Some(event) => events_after(wakes).push(event),
            None => events_after(wakes),
        }),
{
    assert(wakes.push(wake).drop_last() =~= wakes);
}

} // verus!
