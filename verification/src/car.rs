//! Outgoing commands and their expansion into the full 16-channel vector
//! that one SBUS frame carries.

use crate::sbus_writer::SBUS_FLAGS_BYTE;
use crate::sbus_writer::SBUS_FOOTER_BYTE;
use crate::sbus_writer::SBUS_HEADER_BYTE;
use crate::sbus_writer::byte_bit;
use crate::sbus_writer::encode_sbus;
use crate::sbus_writer::packed_bit;
use vstd::prelude::*;

verus! {

/// One instruction to the transport owner: mapped horizontal and vertical
/// stick values, the mixed direction, and the mixed arming decision.
#[derive(Debug, Clone, Copy, PartialEq, Eq, Structural)]
pub enum CarCommand {
    SendData(u16, u16, bool, bool),
}

/// The fixed high/low threshold pair used for boolean-style channels.
pub open spec fn bool_channel(high: bool) -> u16 {
    if high {
        1807
    } else {
        240
    }
}

/// The channel vector for one command: horizontal on channel 0, vertical on
/// channel 2, arming on channel 4, direction on channel 5, the two fixed
/// auxiliary channels 6 and 7 at their low value, everything else neutral.
pub open spec fn command_channels_spec(
    horizontal: u16,
    vertical: u16,
    forward: bool,
    armed: bool,
) -> Seq<u16> {
    seq![
        horizontal,
        1024u16,
        vertical,
        1024u16,
        bool_channel(armed),
        bool_channel(forward),
        240u16,
        240u16,
        1024u16,
        1024u16,
        1024u16,
        1024u16,
        1024u16,
        1024u16,
        1024u16,
        1024u16,
    ]
}

/// The channel vector a command expands to.
pub open spec fn command_channels_of(command: CarCommand) -> Seq<u16> {
    match command {
        CarCommand::SendData(horizontal, vertical, forward, armed) => command_channels_spec(
            horizontal,
            vertical,
            forward,
            armed,
        ),
    }
}

/// Expand one command into the 16 channel values of a frame.
pub fn command_to_channels(horizontal: u16, vertical: u16, forward: bool, armed: bool) -> (channels:
    [u16; 16])
    ensures
        channels@ == command_channels_spec(horizontal, vertical, forward, armed),
{
    let mut channels: [u16; 16] = [1024u16; 16];
    channels[0] = horizontal;
    channels[2] = vertical;
    channels[6] = 240;
    channels[7] = 240;

    if forward {
        channels[5] = 1807;
    } else {
        channels[5] = 240;
    }

    if armed {
        channels[4] = 1807;
    } else {
        channels[4] = 240;
    }

    proof {
        assert(channels@ =~= command_channels_spec(horizontal, vertical, forward, armed));
    }

    channels
}

/// Encode one command as a complete wire frame.
pub fn command_frame(command: &CarCommand) -> (frame: [u8; 25])
    ensures
        frame[0] == SBUS_HEADER_BYTE,
        frame[23] == SBUS_FLAGS_BYTE,
        frame[24] == SBUS_FOOTER_BYTE,
        forall|k: int|
            0 <= k < 176 ==> #[trigger] byte_bit(frame[1 + k / 8], (k % 8) as u8) == packed_bit(
                command_channels_of(*command),
                k,
            ),
{
    match command {
        CarCommand::SendData(horizontal, vertical, forward, armed) => {
            let channels = command_to_channels(*horizontal, *vertical, *forward, *armed);
            encode_sbus(channels)
        },
    }
}

} // verus!
