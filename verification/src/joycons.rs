//! Per-controller intent and the calibrated stick remapping of each
//! physical controller.

use crate::utils::map_range;
use crate::utils::map_range_spec;
use vstd::prelude::*;

verus! {

/// One controller's latched intent: travel direction and whether the
/// operator has armed it.
#[derive(Debug, Clone, Copy, PartialEq, Eq, Structural)]
pub struct JoyConState {
    pub forward: bool,
    pub armed: bool,
}

/// Remap the left controller's raw stick sample into the protocol range
/// 240..=1807.  The horizontal axis is mirrored: raw maximum (stick right)
/// maps to the protocol minimum.
pub fn remap_left_joycon(horizontal: u16, vertical: u16) -> (mapped: (u16, u16))
    ensures
        mapped.0 == map_range_spec(horizontal, (670, 3240), (240, 1807), true),
        mapped.1 == map_range_spec(vertical, (1080, 3240), (240, 1807), false),
        240 <= mapped.0 <= 1807,
        240 <= mapped.1 <= 1807,
{
    // horizontal min (left) 670, max (right) 3240
    let horizontal_mapped = map_range(horizontal, (670, 3240), (240, 1807), true);

    // vertical min (down) 1080, max (up) 3240
    let vertical_mapped = map_range(vertical, (1080, 3240), (240, 1807), false);

    (horizontal_mapped, vertical_mapped)
}

/// Remap the right controller's raw stick sample into the protocol range
/// 240..=1807, with its own calibration extents.
pub fn remap_right_joycon(horizontal: u16, vertical: u16) -> (mapped: (u16, u16))
    ensures
        mapped.0 == map_range_spec(horizontal, (700, 3600), (240, 1807), true),
        mapped.1 == map_range_spec(vertical, (780, 3000), (240, 1807), false),
        240 <= mapped.0 <= 1807,
        240 <= mapped.1 <= 1807,
{
    // horizontal min (left) 700, max (right) 3600
    let horizontal_mapped = map_range(horizontal, (700, 3600), (240, 1807), true);

    // vertical min (down) 780, max (up) 3000
    let vertical_mapped = map_range(vertical, (780, 3000), (240, 1807), false);

    (horizontal_mapped, vertical_mapped)
}

} // verus!
