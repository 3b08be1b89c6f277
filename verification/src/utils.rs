//! Linear axis remapping with clamping, mirroring and exact rounding, and
//! the deterministic mixing of the two controllers' intents.

use crate::state_manager::StateManager;
use vstd::prelude::*;

verus! {

/// `v` pulled into the inclusive interval `[lo, hi]`.
pub open spec fn clamp_spec(v: int, lo: int, hi: int) -> int {
    if v < lo {
        lo
    } else if v > hi {
        hi
    } else {
        v
    }
}

/// `num / den` rounded to the nearest integer, halves rounding up
/// (meaningful for `num >= 0` and `den > 0`).
pub open spec fn round_div(num: int, den: int) -> int {
    (num + den / 2) / den
}

/// What `map_range` returns: the raw `value` is mirrored within
/// `from_range` when `invert` is set, clamped into `from_range`, and
/// linearly interpolated into `to_range` with rounding to nearest.
/// A collapsed source range maps everything to the midpoint of
/// `to_range`.
pub open spec fn map_range_spec(
    value: u16,
    from_range: (u16, u16),
    to_range: (u16, u16),
    invert: bool,
) -> int {
    let raw: int = if invert {
        from_range.0 + from_range.1 - value
    } else {
        value as int
    };
    if from_range.0 == from_range.1 {
        (to_range.0 + to_range.1) / 2
    } else {
        let v = clamp_spec(raw, from_range.0 as int, from_range.1 as int);
        to_range.0 + round_div(
            (v - from_range.0) * (to_range.1 - to_range.0),
            from_range.1 - from_range.0,
        )
    }
}

/// Remap a raw axis sample from a calibration range into the protocol
/// range.  Total for every `value`: readings outside `from_range` are
/// clamped (after the optional mirroring), so the result always lies
/// within `to_range`.
pub fn map_range(value: u16, from_range: (u16, u16), to_range: (u16, u16), invert: bool) -> (result:
    u16)
    requires
        from_range.0 <= from_range.1,
        to_range.0 <= to_range.1,
    ensures
        result == map_range_spec(value, from_range, to_range, invert),
        to_range.0 <= result <= to_range.1,
{
    let (from_min, from_max) = from_range;
    let (to_min, to_max) = to_range;

    if from_min == from_max {
        // Degenerate calibration: midpoint of the target range.
        return ((to_min as u32 + to_max as u32) / 2) as u16;
    }

    // Mirror on the raw reading, then clamp into the source range.
    let clamped: u16 = if invert {
        let mirrored: i32 = from_min as i32 + from_max as i32 - value as i32;
        if mirrored < from_min as i32 {
            from_min
        } else if mirrored > from_max as i32 {
            from_max
        } else {
            mirrored as u16
        }
    } else {
        if value < from_min {
            from_min
        } else if value > from_max {
            from_max
        } else {
            value
        }
    };

    let offset: u64 = (clamped - from_min) as u64;
    let span: u64 = (to_max - to_min) as u64;
    proof {
        assert(offset * span < 0x1_0000_0000) by (nonlinear_arith)
            requires
                offset < 0x1_0000,
                span < 0x1_0000,
        ;
    }
    let numerator: u64 = offset * span;
    let denominator: u64 = (from_max - from_min) as u64;
    let scaled: u64 = (numerator + denominator / 2) / denominator;

    proof {
        let num = numerator as int;
        let den = denominator as int;
        let dd = span as int;
        vstd::arithmetic::mul::lemma_mul_inequality(offset as int, den, dd);
        assert((den * dd + den / 2) / den == dd) by {
            vstd::arithmetic::mul::lemma_mul_is_commutative(den, dd);
            vstd::arithmetic::div_mod::lemma_fundamental_div_mod_converse(
                den * dd + den / 2,
                den,
                dd,
                den / 2,
            );
        }
        vstd::arithmetic::div_mod::lemma_div_is_ordered(num + den / 2, den * dd + den / 2, den);
        assert(scaled <= dd);
    }

    (to_min as u64 + scaled) as u16
}

/// Identity law: with identical source and target ranges and no
/// mirroring, a value already inside the range maps to itself.
pub proof fn lemma_map_range_identity(value: u16, range: (u16, u16))
    requires
        range.0 <= value <= range.1,
    ensures
        map_range_spec(value, range, range, false) == value,
{
    let lo = range.0 as int;
    let hi = range.1 as int;
    if lo != hi {
        let den = hi - lo;
        assert(round_div((value - lo) * den, den) == value - lo) by {
            vstd::arithmetic::div_mod::lemma_fundamental_div_mod_converse(
                (value - lo) * den + den / 2,
                den,
                value - lo,
                den / 2,
            );
        }
    }
}

/// Mirroring law: mapping with `invert` set equals mapping the mirrored
/// value `lo + hi - value` without it, for a value inside the source range.
pub proof fn lemma_map_range_invert(value: u16, from_range: (u16, u16), to_range: (u16, u16))
    requires
        from_range.0 <= value <= from_range.1,
    ensures
        map_range_spec(value, from_range, to_range, true) == map_range_spec(
            (from_range.0 + from_range.1 - value) as u16,
            from_range,
            to_range,
            false,
        ),
{
}

/// The combined arming decision: armed as soon as either controller is.
pub open spec fn mixed_armed_spec(state: StateManager) -> bool {
    state.l.armed || state.r.armed
}

/// The combined direction decision.  Two armed controllers that agree keep
/// their shared direction; two armed controllers that disagree default to
/// forward; a single armed controller decides alone; with neither armed the
/// direction is irrelevant and defaults to forward.
pub open spec fn mixed_forward_spec(state: StateManager) -> bool {
    if state.l.armed && state.r.armed {
        if state.l.forward == state.r.forward {
            state.l.forward
        } else {
            true
        }
    } else if state.l.armed {
        state.l.forward
    } else if state.r.armed {
        state.r.forward
    } else {
        true
    }
}

/// Combine the two controllers' latched intents into the authoritative
/// (direction, armed) decision for the outgoing command.
pub fn mix_joycon_states(state: &StateManager) -> (mixed: (bool, bool))
    ensures
        mixed.0 == mixed_forward_spec(*state),
        mixed.1 == mixed_armed_spec(*state),
{
    let armed = state.l.armed || state.r.armed;

    let mut forward = true;
    if state.l.armed && state.r.armed {
        // both are armed: go in whatever direction they agree on
        if state.l.forward == state.r.forward {
            forward = state.l.forward;
        } else {
            // they disagree: the safe default is forward
            forward = true;
        }
    } else if state.l.armed {
        // only the left controller is armed, it decides the direction
        forward = state.l.forward;
    } else if state.r.armed {
        // only the right controller is armed, it decides the direction
        forward = state.r.forward;
    }

    (forward, armed)
}

} // verus!
