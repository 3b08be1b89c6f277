//! The decision core of a controller-reader task: how one input report
//! updates that controller's latched intent, and when it yields a command.
//!
//! The surrounding loop — blocking on the device, swapping the shared
//! snapshot, sending on the channel — is unverified plumbing in the
//! application; every decision it takes goes through `reader_step`.

use crate::car::CarCommand;
use crate::joycons::JoyConState;
use crate::joycons::remap_left_joycon;
use crate::joycons::remap_right_joycon;
use crate::state_manager::JoyConKind;
use crate::state_manager::StateManager;
use crate::utils::map_range_spec;
use crate::utils::mix_joycon_states;
use crate::utils::mixed_armed_spec;
use crate::utils::mixed_forward_spec;
use vstd::prelude::*;

verus! {

/// The buttons of one report that this system reads, as pressed/unpressed
/// flags.  Up, down, left and right are the left controller's directional
/// buttons; A, B, X and Y the right controller's; SL and SR exist on both.
#[derive(Debug, Clone, Copy, PartialEq, Eq, Structural)]
pub struct ButtonReport {
    pub up: bool,
    pub down: bool,
    pub left: bool,
    pub right: bool,
    pub sl: bool,
    pub sr: bool,
    pub a: bool,
    pub b: bool,
    pub x: bool,
    pub y: bool,
}

/// One raw input report: the pressed buttons and the controller's own
/// analog stick sample.
#[derive(Debug, Clone, Copy, PartialEq, Eq, Structural)]
pub struct InputReport {
    pub buttons: ButtonReport,
    pub horizontal: u16,
    pub vertical: u16,
}

/// How one report's buttons rewrite one controller's intent.  Each
/// controller has a single-button toggle per direction and a two-button
/// combo to arm or disarm; the first match in this fixed order wins and
/// everything else leaves the intent as it was.
pub open spec fn intent_after_buttons(
    joycon: JoyConKind,
    intent: JoyConState,
    buttons: ButtonReport,
) -> JoyConState {
    match joycon {
        JoyConKind::Left => {
            if buttons.down {
                JoyConState { forward: false, ..intent }
            } else if buttons.up {
                JoyConState { forward: true, ..intent }
            } else if buttons.left && buttons.right {
                JoyConState { armed: true, ..intent }
            } else if buttons.sl && buttons.sr {
                JoyConState { armed: false, ..intent }
            } else {
                intent
            }
        },
        JoyConKind::Right => {
            if buttons.b {
                JoyConState { forward: false, ..intent }
            } else if buttons.x {
                JoyConState { forward: true, ..intent }
            } else if buttons.y && buttons.a {
                JoyConState { armed: true, ..intent }
            } else if buttons.sl && buttons.sr {
                JoyConState { armed: false, ..intent }
            } else {
                intent
            }
        },
    }
}

/// The full state after a report: the reporting controller's intent is
/// rewritten, the other side's is kept from the snapshot.
pub open spec fn state_after_buttons(
    joycon: JoyConKind,
    state: StateManager,
    buttons: ButtonReport,
) -> StateManager {
    match joycon {
        JoyConKind::Left => StateManager {
            l: intent_after_buttons(joycon, state.l, buttons),
            ..state
        },
        JoyConKind::Right => StateManager {
            r: intent_after_buttons(joycon, state.r, buttons),
            ..state
        },
    }
}

/// Transmission gating: a controller's stick values may drive motion only
/// while it is armed and the other controller is not.
pub open spec fn gate_open(joycon: JoyConKind, state: StateManager) -> bool {
    match joycon {
        JoyConKind::Left => state.l.armed && !state.r.armed,
        JoyConKind::Right => state.r.armed && !state.l.armed,
    }
}

/// The reporting controller's stick sample remapped with its own
/// calibration.
pub open spec fn mapped_axes_spec(joycon: JoyConKind, horizontal: u16, vertical: u16) -> (int, int) {
    match joycon {
        JoyConKind::Left => (
            map_range_spec(horizontal, (670, 3240), (240, 1807), true),
            map_range_spec(vertical, (1080, 3240), (240, 1807), false),
        ),
        JoyConKind::Right => (
            map_range_spec(horizontal, (700, 3600), (240, 1807), true),
            map_range_spec(vertical, (780, 3000), (240, 1807), false),
        ),
    }
}

/// The command a report yields once the state has been updated: the
/// reporting controller's remapped axes with the mixed decision while the
/// gate is open, nothing otherwise.
pub open spec fn step_command_spec(
    joycon: JoyConKind,
    state: StateManager,
    report: InputReport,
) -> Option<CarCommand> {
    if gate_open(joycon, state) {
        let axes = mapped_axes_spec(joycon, report.horizontal, report.vertical);
        Some(
            CarCommand::SendData(
                axes.0 as u16,
                axes.1 as u16,
                mixed_forward_spec(state),
                mixed_armed_spec(state),
            ),
        )
    } else {
        None
    }
}

/// Rewrite one controller's intent from one report's buttons.
pub fn update_intent(joycon: JoyConKind, intent: JoyConState, buttons: &ButtonReport) -> (updated:
    JoyConState)
    ensures
        updated == intent_after_buttons(joycon, intent, *buttons),
{
    match joycon {
        JoyConKind::Left => {
            if buttons.down {
                JoyConState { forward: false, ..intent }
            } else if buttons.up {
                JoyConState { forward: true, ..intent }
            } else if buttons.left && buttons.right {
                JoyConState { armed: true, ..intent }
            } else if buttons.sl && buttons.sr {
                JoyConState { armed: false, ..intent }
            } else {
                intent
            }
        },
        JoyConKind::Right => {
            if buttons.b {
                JoyConState { forward: false, ..intent }
            } else if buttons.x {
                JoyConState { forward: true, ..intent }
            } else if buttons.y && buttons.a {
                JoyConState { armed: true, ..intent }
            } else if buttons.sl && buttons.sr {
                JoyConState { armed: false, ..intent }
            } else {
                intent
            }
        },
    }
}

/// One reader-task step over a snapshot of the shared state: update the
/// reporting controller's intent, mix, and emit a command exactly when the
/// gate is open.  The caller publishes the returned state as the new
/// authoritative snapshot and enqueues the returned command, if any.
pub fn reader_step(joycon: JoyConKind, state: &StateManager, report: &InputReport) -> (outcome: (
    StateManager,
    Option<CarCommand>,
))
    ensures
        outcome.0 == state_after_buttons(joycon, *state, report.buttons),
        outcome.1 == step_command_spec(joycon, outcome.0, *report),
        outcome.0.l.armed && outcome.0.r.armed ==> outcome.1 is None,
{
    let own_intent = match joycon {
        JoyConKind::Left => state.l,
        JoyConKind::Right => state.r,
    };
    let updated_intent = update_intent(joycon, own_intent, &report.buttons);
    let new_state = match joycon {
        JoyConKind::Left => StateManager { l: updated_intent, r: state.r },
        JoyConKind::Right => StateManager { l: state.l, r: updated_intent },
    };

    let mixed = mix_joycon_states(&new_state);

    let gate = match joycon {
        JoyConKind::Left => new_state.l.armed && !new_state.r.armed,
        JoyConKind::Right => new_state.r.armed && !new_state.l.armed,
    };

    let command = if gate {
        let mapped = match joycon {
            JoyConKind::Left => remap_left_joycon(report.horizontal, report.vertical),
            JoyConKind::Right => remap_right_joycon(report.horizontal, report.vertical),
        };
        Some(CarCommand::SendData(mapped.0, mapped.1, mixed.0, mixed.1))
    } else {
        None
    };

    (new_state, command)
}

/// Gating law: while both controllers end up armed, a reader step emits no
/// stick-derived command, whichever controller reported.
pub proof fn lemma_both_armed_no_command(
    joycon: JoyConKind,
    state: StateManager,
    report: InputReport,
)
    requires
        state_after_buttons(joycon, state, report.buttons).l.armed,
        state_after_buttons(joycon, state, report.buttons).r.armed,
    ensures
        step_command_spec(joycon, state_after_buttons(joycon, state, report.buttons), report)
            is None,
{
}

} // verus!
