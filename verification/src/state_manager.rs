//! The authoritative combined operator intent, replaced wholesale on each
//! update so that readers always see a fully-formed snapshot.

use crate::joycons::JoyConState;
use vstd::prelude::*;

verus! {

/// Which physical controller a report or an update belongs to.
#[derive(Debug, Clone, Copy, PartialEq, Eq, Structural)]
pub enum JoyConKind {
    Left,
    Right,
}

/// Both controllers' latched intents.
#[derive(Debug, Clone, Copy, PartialEq, Eq, Structural)]
pub struct StateManager {
    pub l: JoyConState,
    pub r: JoyConState,
}

/// The state with one side's intent replaced and the other side kept.
pub open spec fn set_state_spec(
    state: StateManager,
    joycon: JoyConKind,
    forward: bool,
    armed: bool,
) -> StateManager {
    match joycon {
        JoyConKind::Left => StateManager { l: JoyConState { forward, armed }, ..state },
        JoyConKind::Right => StateManager { r: JoyConState { forward, armed }, ..state },
    }
}

impl StateManager {
    /// The session-start state: both controllers disarmed, forward.
    pub fn new() -> (state: StateManager)
        ensures
            state.l == (JoyConState { forward: true, armed: false }),
            state.r == (JoyConState { forward: true, armed: false }),
    {
        StateManager {
            l: JoyConState { forward: true, armed: false },
            r: JoyConState { forward: true, armed: false },
        }
    }

    /// Replace one controller's intent in place; the other side is untouched.
    pub fn set_state(&mut self, joycon: JoyConKind, forward: bool, armed: bool)
        ensures
            *final(self) == set_state_spec(*old(self), joycon, forward, armed),
    {
        match joycon {
            JoyConKind::Left => {
                self.l.forward = forward;
                self.l.armed = armed;
            },
            JoyConKind::Right => {
                self.r.forward = forward;
                self.r.armed = armed;
            },
        }
    }
}

} // verus!
