//! The countdown that drives automatic advancement and rest periods.

use vstd::prelude::*;

use crate::decimal::{decimal, decimal_text};

verus! {

/// What the countdown is doing. Exactly one variant is active at a time, and
/// only the two counting variants carry the seconds that remain.
#[derive(Clone, Copy, Debug, PartialEq, Eq, Structural)]
pub enum TimerState {
    /// No countdown: the session is untimed, or there is none.
    Idle,
    /// Counting down the display time of the current image.
    Viewing(usize),
    /// Counting down the rest between two images.
    Resting(usize),
}

/// The outcome of one tick: the state the countdown moved to, and whether
/// the tick asks for the next image.
#[derive(Clone, Copy, Debug, PartialEq, Eq, Structural)]
pub struct Tick {
    pub state: TimerState,
    pub advance: bool,
}

impl TimerState {
    /// The countdown at the moment an image is shown: a full display time,
    /// or no countdown at all when images are not timed.
    pub open spec fn started(session_time: usize) -> TimerState {
        if session_time > 0 {
            TimerState::Viewing(session_time)
        } else {
            TimerState::Idle
        }
    }

    /// A counting state always has at least one second left.
    pub open spec fn valid(self) -> bool {
        match self {
            TimerState::Idle => true,
            TimerState::Viewing(remaining) => remaining >= 1,
            TimerState::Resting(remaining) => remaining >= 1,
        }
    }

    /// One second passes. A counting state with two or more seconds left
    /// loses one. With fewer than two left, a display time ends in a rest if
    /// rests are configured, and otherwise, like the end of a rest, in a
    /// fresh display time together with the request to advance.
    pub open spec fn ticked(self, session_time: usize, pause_time: usize) -> Tick {
        match self {
            TimerState::Idle => Tick { state: TimerState::Idle, advance: false },
            TimerState::Viewing(remaining) => if remaining >= 2 {
                Tick { state: TimerState::Viewing((remaining - 1) as usize), advance: false }
            } else if pause_time > 0 {
                Tick { state: TimerState::Resting(pause_time), advance: false }
            } else {
                Tick { state: Self::started(session_time), advance: true }
            },
            TimerState::Resting(remaining) => if remaining >= 2 {
                Tick { state: TimerState::Resting((remaining - 1) as usize), advance: false }
            } else {
                Tick { state: Self::started(session_time), advance: true }
            },
        }
    }

    /// The state after `count` ticks in a row.
    pub open spec fn ticked_times(
        self,
        session_time: usize,
        pause_time: usize,
        count: nat,
    ) -> TimerState
        decreases count,
    {
        if count == 0 {
            self
        } else {
            self.ticked_times(session_time, pause_time, (count - 1) as nat).ticked(
                session_time,
                pause_time,
            ).state
        }
    }

    /// What the countdown shows: the seconds that remain, and nothing while
    /// no countdown is active.
    pub open spec fn countdown_text(self) -> Seq<char> {
        match self {
            TimerState::Idle => Seq::empty(),
            TimerState::Viewing(remaining) => decimal(remaining as nat),
            TimerState::Resting(remaining) => decimal(remaining as nat),
        }
    }

    /// Starts the countdown for a newly shown image.
    pub fn start(session_time: usize) -> (timer: TimerState)
        ensures
            timer == Self::started(session_time),
            timer.valid(),
    {
        if session_time > 0 {
            TimerState::Viewing(session_time)
        } else {
            TimerState::Idle
        }
    }

    /// Applies one tick of the one-second clock.
    pub fn tick(self, session_time: usize, pause_time: usize) -> (tick: Tick)
        ensures
            tick == self.ticked(session_time, pause_time),
            tick.state.valid(),
    {
        match self {
            TimerState::Idle => Tick { state: TimerState::Idle, advance: false },
            TimerState::Viewing(remaining) => {
                if remaining >= 2 {
                    Tick { state: TimerState::Viewing(remaining - 1), advance: false }
                } else if pause_time > 0 {
                    Tick { state: TimerState::Resting(pause_time), advance: false }
                } else {
                    Tick { state: TimerState::start(session_time), advance: true }
                }
            },
            TimerState::Resting(remaining) => {
                if remaining >= 2 {
                    Tick { state: TimerState::Resting(remaining - 1), advance: false }
                } else {
                    Tick { state: TimerState::start(session_time), advance: true }
                }
            },
        }
    }

    /// The seconds left in the active countdown, if one is active.
    pub fn remaining(self) -> (seconds: Option<usize>)
        ensures
            seconds == match self {
                TimerState::Idle => None::<usize>,
                TimerState::Viewing(remaining) => Some(remaining),
                TimerState::Resting(remaining) => Some(remaining),
            },
    {
        match self {
            TimerState::Idle => None,
            TimerState::Viewing(remaining) => Some(remaining),
            TimerState::Resting(remaining) => Some(remaining),
        }
    }

    /// The text of the countdown.
    pub fn countdown(self) -> (text: String)
        ensures
            text@ == self.countdown_text(),
    {
        match self {
            TimerState::Idle => String::new(),
            TimerState::Viewing(remaining) => decimal_text(remaining),
            TimerState::Resting(remaining) => decimal_text(remaining),
        }
    }

    /// Whether the countdown is in a rest between two images.
    pub fn is_resting(self) -> (resting: bool)
        ensures
            resting == (self is Resting),
    {
        match self {
            TimerState::Resting(_) => true,
            _ => false,
        }
    }
}

/// A display time counts down by one second per tick, and none of these
/// ticks asks to advance, for as long as more than one second is left.
pub proof fn lemma_viewing_counts_down(
    remaining: usize,
    session_time: usize,
    pause_time: usize,
    count: nat,
)
    requires
        count < remaining,
    ensures
        TimerState::Viewing(remaining).ticked_times(session_time, pause_time, count)
            == TimerState::Viewing((remaining - count) as usize),
        forall|earlier: nat|
            earlier < count ==> !(#[trigger] TimerState::Viewing(remaining).ticked_times(
                session_time,
                pause_time,
                earlier,
            )).ticked(session_time, pause_time).advance,
    decreases count,
{
    if count > 0 {
        lemma_viewing_counts_down(remaining, session_time, pause_time, (count - 1) as nat);
    }
}

/// A rest counts down by one second per tick, and none of these ticks asks
/// to advance, for as long as more than one second is left.
pub proof fn lemma_resting_counts_down(
    remaining: usize,
    session_time: usize,
    pause_time: usize,
    count: nat,
)
    requires
        count < remaining,
    ensures
        TimerState::Resting(remaining).ticked_times(session_time, pause_time, count)
            == TimerState::Resting((remaining - count) as usize),
        forall|earlier: nat|
            earlier < count ==> !(#[trigger] TimerState::Resting(remaining).ticked_times(
                session_time,
                pause_time,
                earlier,
            )).ticked(session_time, pause_time).advance,
    decreases count,
{
    if count > 0 {
        lemma_resting_counts_down(remaining, session_time, pause_time, (count - 1) as nat);
    }
}

/// Whatever the state before, the state after a tick is valid: a counting
/// state it leads to has at least one second left.
pub proof fn lemma_tick_is_valid(state: TimerState, session_time: usize, pause_time: usize)
    ensures
        state.ticked(session_time, pause_time).state.valid(),
        TimerState::started(session_time).valid(),
{
}

} // verus!
