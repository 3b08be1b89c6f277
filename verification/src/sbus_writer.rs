//! SBUS wire codec: 16 channel values of 11 bits each, packed least
//! significant bit first into a fixed 25-byte frame.

use vstd::prelude::*;

verus! {

broadcast use vstd::array::group_array_axioms;

pub const SBUS_HEADER_BYTE: u8 = 0x0F;

pub const SBUS_FLAGS_BYTE: u8 = 0x00;

pub const SBUS_FOOTER_BYTE: u8 = 0x00;

pub const SBUS_PACKET_SIZE: usize = 25;

/// Bit `j` of channel value `c`; only the low 11 bits of a channel reach
/// the wire.
pub open spec fn channel_bit(c: u16, j: u16) -> bool {
    (c >> j) & 1 == 1
}

/// Bit `j` of byte `b`.
pub open spec fn byte_bit(b: u8, j: u8) -> bool {
    (b >> j) & 1 == 1
}

/// Bit `k` of the 176-bit payload: the 16 channels back to back, 11 bits
/// each, channel 0 first, least significant bit first.
pub open spec fn packed_bit(channels: Seq<u16>, k: int) -> bool
    recommends
        0 <= k < 176,
        channels.len() == 16,
{
    channel_bit(channels[k / 11], (k % 11) as u16)
}

/// A payload byte whose eight bits all come from one channel, starting at
/// bit `p` of that channel.
proof fn lemma_pack_within(ca: u16, p: u16, b: u8)
    by (bit_vector)
    requires
        p <= 3,
        b == ((ca & 0x07FF) >> p) as u8,
    ensures
        forall|j: u8| j < 8 ==> #[trigger] byte_bit(b, j) == channel_bit(ca, (p + j) as u16),
{
}

/// A payload byte that is the low eight bits of a channel.
proof fn lemma_pack_low(ca: u16, b: u8)
    by (bit_vector)
    requires
        b == (ca & 0x07FF) as u8,
    ensures
        forall|j: u8| j < 8 ==> #[trigger] byte_bit(b, j) == channel_bit(ca, j as u16),
{
}

/// A payload byte that straddles two consecutive channels: bits `p..11` of
/// channel `ca` in its low end, the low bits of channel `cb` above them.
proof fn lemma_pack_straddle(ca: u16, cb: u16, p: u16, b: u8)
    by (bit_vector)
    requires
        4 <= p < 11,
        b == (((ca & 0x07FF) >> p) | ((cb & 0x07FF) << ((11 - p) as u16))) as u8,
    ensures
        forall|j: u8|
            j < 8 ==> #[trigger] byte_bit(b, j) == if p + j < 11 {
                channel_bit(ca, (p + j) as u16)
            } else {
                channel_bit(cb, (p + j - 11) as u16)
            },
{
}

/// Encode one frame: a fixed header byte, the 16 channels packed into 22
/// bytes as `packed_bit` describes, then the flags and footer bytes, both
/// zero here.  Values above 2047 lose their high bits silently, since only
/// the low 11 bits of each channel are packed.
pub fn encode_sbus(channels: [u16; 16]) -> (frame: [u8; 25])
    ensures
        frame[0] == SBUS_HEADER_BYTE,
        frame[23] == SBUS_FLAGS_BYTE,
        frame[24] == SBUS_FOOTER_BYTE,
        forall|k: int|
            0 <= k < 176 ==> #[trigger] byte_bit(frame[1 + k / 8], (k % 8) as u8) == packed_bit(
                channels@,
                k,
            ),
{
    let mut buf: [u8; 25] = [0u8; 25];
    buf[0] = 0x0F;
    buf[1] = (channels[0] & 0x07FF) as u8;
    buf[2] = (((channels[0] & 0x07FF) >> 8) | ((channels[1] & 0x07FF) << 3)) as u8;
    buf[3] = (((channels[1] & 0x07FF) >> 5) | ((channels[2] & 0x07FF) << 6)) as u8;
    buf[4] = ((channels[2] & 0x07FF) >> 2) as u8;
    buf[5] = (((channels[2] & 0x07FF) >> 10) | ((channels[3] & 0x07FF) << 1)) as u8;
    buf[6] = (((channels[3] & 0x07FF) >> 7) | ((channels[4] & 0x07FF) << 4)) as u8;
    buf[7] = (((channels[4] & 0x07FF) >> 4) | ((channels[5] & 0x07FF) << 7)) as u8;
    buf[8] = ((channels[5] & 0x07FF) >> 1) as u8;
    buf[9] = (((channels[5] & 0x07FF) >> 9) | ((channels[6] & 0x07FF) << 2)) as u8;
    buf[10] = (((channels[6] & 0x07FF) >> 6) | ((channels[7] & 0x07FF) << 5)) as u8;
    buf[11] = ((channels[7] & 0x07FF) >> 3) as u8;
    buf[12] = (channels[8] & 0x07FF) as u8;
    buf[13] = (((channels[8] & 0x07FF) >> 8) | ((channels[9] & 0x07FF) << 3)) as u8;
    buf[14] = (((channels[9] & 0x07FF) >> 5) | ((channels[10] & 0x07FF) << 6)) as u8;
    buf[15] = ((channels[10] & 0x07FF) >> 2) as u8;
    buf[16] = (((channels[10] & 0x07FF) >> 10) | ((channels[11] & 0x07FF) << 1)) as u8;
    buf[17] = (((channels[11] & 0x07FF) >> 7) | ((channels[12] & 0x07FF) << 4)) as u8;
    buf[18] = (((channels[12] & 0x07FF) >> 4) | ((channels[13] & 0x07FF) << 7)) as u8;
    buf[19] = ((channels[13] & 0x07FF) >> 1) as u8;
    buf[20] = (((channels[13] & 0x07FF) >> 9) | ((channels[14] & 0x07FF) << 2)) as u8;
    buf[21] = (((channels[14] & 0x07FF) >> 6) | ((channels[15] & 0x07FF) << 5)) as u8;
    buf[22] = ((channels[15] & 0x07FF) >> 3) as u8;
    buf[23] = 0x00;
    buf[24] = 0x00;

    proof {
        lemma_pack_low(channels@[0], buf[1]);
        lemma_pack_straddle(channels@[0], channels@[1], 8, buf[2]);
        lemma_pack_straddle(channels@[1], channels@[2], 5, buf[3]);
        lemma_pack_within(channels@[2], 2, buf[4]);
        lemma_pack_straddle(channels@[2], channels@[3], 10, buf[5]);
        lemma_pack_straddle(channels@[3], channels@[4], 7, buf[6]);
        lemma_pack_straddle(channels@[4], channels@[5], 4, buf[7]);
        lemma_pack_within(channels@[5], 1, buf[8]);
        lemma_pack_straddle(channels@[5], channels@[6], 9, buf[9]);
        lemma_pack_straddle(channels@[6], channels@[7], 6, buf[10]);
        lemma_pack_within(channels@[7], 3, buf[11]);
        lemma_pack_low(channels@[8], buf[12]);
        lemma_pack_straddle(channels@[8], channels@[9], 8, buf[13]);
        lemma_pack_straddle(channels@[9], channels@[10], 5, buf[14]);
        lemma_pack_within(channels@[10], 2, buf[15]);
        lemma_pack_straddle(channels@[10], channels@[11], 10, buf[16]);
        lemma_pack_straddle(channels@[11], channels@[12], 7, buf[17]);
        lemma_pack_straddle(channels@[12], channels@[13], 4, buf[18]);
        lemma_pack_within(channels@[13], 1, buf[19]);
        lemma_pack_straddle(channels@[13], channels@[14], 9, buf[20]);
        lemma_pack_straddle(channels@[14], channels@[15], 6, buf[21]);
        lemma_pack_within(channels@[15], 3, buf[22]);

        assert forall|k: int|
            0 <= k < 176 implies #[trigger] byte_bit(buf[1 + k / 8], (k % 8) as u8) == packed_bit(
            channels@,
            k,
        ) by {
            let d = k / 8;
            let j = (k % 8) as u8;
            if d == 0 {
                assert(byte_bit(buf[1], j) == packed_bit(channels@, k));
            } else if d == 1 {
                assert(byte_bit(buf[2], j) == packed_bit(channels@, k));
            } else if d == 2 {
                assert(byte_bit(buf[3], j) == packed_bit(channels@, k));
            } else if d == 3 {
                assert(byte_bit(buf[4], j) == packed_bit(channels@, k));
            } else if d == 4 {
                assert(byte_bit(buf[5], j) == packed_bit(channels@, k));
            } else if d == 5 {
                assert(byte_bit(buf[6], j) == packed_bit(channels@, k));
            } else if d == 6 {
                assert(byte_bit(buf[7], j) == packed_bit(channels@, k));
            } else if d == 7 {
                assert(byte_bit(buf[8], j) == packed_bit(channels@, k));
            } else if d == 8 {
                assert(byte_bit(buf[9], j) == packed_bit(channels@, k));
            } else if d == 9 {
                assert(byte_bit(buf[10], j) == packed_bit(channels@, k));
            } else if d == 10 {
                assert(byte_bit(buf[11], j) == packed_bit(channels@, k));
            } else if d == 11 {
                assert(byte_bit(buf[12], j) == packed_bit(channels@, k));
            } else if d == 12 {
                assert(byte_bit(buf[13], j) == packed_bit(channels@, k));
            } else if d == 13 {
                assert(byte_bit(buf[14], j) == packed_bit(channels@, k));
            } else if d == 14 {
                assert(byte_bit(buf[15], j) == packed_bit(channels@, k));
            } else if d == 15 {
                assert(byte_bit(buf[16], j) == packed_bit(channels@, k));
            } else if d == 16 {
                assert(byte_bit(buf[17], j) == packed_bit(channels@, k));
            } else if d == 17 {
                assert(byte_bit(buf[18], j) == packed_bit(channels@, k));
            } else if d == 18 {
                assert(byte_bit(buf[19], j) == packed_bit(channels@, k));
            } else if d == 19 {
                assert(byte_bit(buf[20], j) == packed_bit(channels@, k));
            } else if d == 20 {
                assert(byte_bit(buf[21], j) == packed_bit(channels@, k));
            } else {
                assert(d == 21);
                assert(byte_bit(buf[22], j) == packed_bit(channels@, k));
            }
        }
    }

    buf
}

} // verus!
