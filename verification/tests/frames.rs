use carlink::car::CarCommand;
use carlink::car::command_to_channels;
use carlink::car::command_frame;
use carlink::sbus_writer::encode_sbus;
use carlink::sbus_writer::SBUS_HEADER_BYTE;
use carlink::sbus_writer::SBUS_PACKET_SIZE;

#[test]
fn encode_all_zero_channels() {
    // Header and trailer are fixed; an all-zero vector leaves every payload
    // bit clear.
    let frame = encode_sbus([0u16; 16]);
    assert_eq!(frame.len(), SBUS_PACKET_SIZE);
    let mut expected = [0u8; 25];
    expected[0] = SBUS_HEADER_BYTE;
    assert_eq!(frame, expected);
}

#[test]
fn encode_channel0_max_sets_first_eleven_bits_only() {
    let mut channels = [0u16; 16];
    channels[0] = 2047;
    let frame = encode_sbus(channels);
    assert_eq!(frame[0], 0x0F);
    // Bits 0..=10 of the payload set, nothing else.
    assert_eq!(frame[1], 0xFF);
    assert_eq!(frame[2], 0x07);
    for i in 3..23 {
        assert_eq!(frame[i], 0x00);
    }
    assert_eq!(frame[23], 0x00);
    assert_eq!(frame[24], 0x00);
}

#[test]
fn encode_known_packet() {
    // A frame captured from working hardware: horizontal 240, armed and
    // forward high, auxiliary channels low, everything else neutral.
    let mut channels = [1024u16; 16];
    channels[0] = 240;
    channels[4] = 1807;
    channels[5] = 1807;
    channels[6] = 240;
    channels[7] = 240;
    let frame = encode_sbus(channels);
    let expected: [u8; 25] = [
        0x0F, 0xF0, 0x00, 0x20, 0x00, 0x01, 0xF8, 0xF0, 0x87, 0xC3, 0x03, 0x1E, 0x00, 0x04, 0x20,
        0x00, 0x01, 0x08, 0x40, 0x00, 0x02, 0x10, 0x80, 0x00, 0x00,
    ];
    assert_eq!(frame, expected);
}

#[test]
fn encode_masks_values_above_eleven_bits() {
    let mut high = [1024u16; 16];
    let mut low = [1024u16; 16];
    high[0] = 2048 + 2047;
    low[0] = 2047;
    high[9] = 2048 + 240;
    low[9] = 240;
    assert_eq!(encode_sbus(high), encode_sbus(low));
}

#[test]
fn command_channel_layout() {
    let channels = command_to_channels(240, 1807, true, true);
    let expected: [u16; 16] = [
        240, 1024, 1807, 1024, 1807, 1807, 240, 240, 1024, 1024, 1024, 1024, 1024, 1024, 1024,
        1024,
    ];
    assert_eq!(channels, expected);
}

#[test]
fn command_channel_thresholds_follow_flags() {
    let channels = command_to_channels(1000, 1200, false, false);
    assert_eq!(channels[0], 1000);
    assert_eq!(channels[2], 1200);
    assert_eq!(channels[4], 240);
    assert_eq!(channels[5], 240);
    assert_eq!(channels[6], 240);
    assert_eq!(channels[7], 240);

    let channels = command_to_channels(1000, 1200, true, false);
    assert_eq!(channels[4], 240);
    assert_eq!(channels[5], 1807);

    let channels = command_to_channels(1000, 1200, false, true);
    assert_eq!(channels[4], 1807);
    assert_eq!(channels[5], 240);
}

#[test]
fn command_frame_matches_known_packet() {
    let frame = command_frame(&CarCommand::SendData(240, 1024, true, true));
    let expected: [u8; 25] = [
        0x0F, 0xF0, 0x00, 0x20, 0x00, 0x01, 0xF8, 0xF0, 0x87, 0xC3, 0x03, 0x1E, 0x00, 0x04, 0x20,
        0x00, 0x01, 0x08, 0x40, 0x00, 0x02, 0x10, 0x80, 0x00, 0x00,
    ];
    assert_eq!(frame, expected);
}
