//! The clock of the session page.

use vstd::prelude::*;

use crate::components::session_page::SessionPageMsg;

verus! {

/// The clock: it has no state of its own and only passes its ticks on.
/// Each tick carries the number of the session the clock was started for.
#[derive(Debug)]
pub struct SessionTimer {}

/// What the clock can be told.
#[derive(Clone, Copy, Debug, PartialEq, Eq, Structural)]
pub enum SessionTimerMsg {
    /// One second has passed for the session with this number.
    Tick(u64),
}

impl SessionTimer {
    /// The clock.
    pub fn init_model() -> SessionTimer {
        SessionTimer {  }
    }

    /// Turns a tick of the clock into the message for the session page.
    pub fn update(&mut self, msg: SessionTimerMsg) -> (forward: SessionPageMsg)
        ensures
            msg matches SessionTimerMsg::Tick(generation) && forward == SessionPageMsg::UpdateTimer(
                generation,
            ),
    {
        match msg {
            SessionTimerMsg::Tick(generation) => SessionPageMsg::UpdateTimer(generation),
        }
    }
}

} // verus!
