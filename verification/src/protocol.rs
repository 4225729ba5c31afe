//! The radio protocol shared by the remote (transmitter) and the car
//! (receiver): the control packet sent at `TX_RATE_HZ`, guarded by a magic
//! byte and a CRC-16/CCITT-FALSE, and the telemetry returned in the ack.

use vstd::prelude::*;
use crate::crc::{crc16, crc16_ccitt_false, lemma_crc16_detects_two_byte_burst};

pub mod button;

verus! {

/// Magic byte that starts every control packet; filters out noise.
pub const MAGIC: u8 = 0xA5;

/// Largest payload of one nRF24L01 packet (dynamic payload mode).
pub const MAX_PAYLOAD: usize = 32;

/// Pairing address (5 bytes); remote and car must agree.
pub const PAIR_ADDR: [u8; 5] = [0xE7, 0xE7, 0xE7, 0xE7, 0xE7];

/// Radio channel (0..=125, i.e. 2400..2525 MHz); both ends must agree.
pub const CHANNEL: u8 = 76;

/// Rate at which the remote sends control packets (Hz).
pub const TX_RATE_HZ: u64 = 100;

/// Failsafe timeout: the car stops after this long without a valid packet.
pub const FAILSAFE_TIMEOUT_MS: u64 = 300;

/// Largest magnitude of a joystick axis.
pub const AXIS_MAX: i16 = 1000;

/// Largest speed limit (percent).
pub const SPEED_LIMIT_MAX: u8 = 100;

/// Remote -> car control packet.
#[derive(Clone, Copy, Debug, PartialEq, Eq, Structural)]
pub struct ControlPacket {
    /// Always `MAGIC`.
    pub magic: u8,
    /// Sequence number, one more in each packet; reveals lost packets.
    pub seq: u16,
    /// Joystick X, -1000..=1000, right is positive.
    pub axis_x: i16,
    /// Joystick Y, -1000..=1000, forward is positive.
    pub axis_y: i16,
    /// Button bitmap (bit 0 = button A, ..., see `button`).
    pub buttons: u16,
    /// Speed limit 0..=100 (%).
    pub speed_limit: u8,
    /// CRC-16/CCITT-FALSE of every field before it.
    pub crc: u16,
}

/// Car -> remote telemetry, sent back as the ack payload.
#[derive(Clone, Copy, Debug, PartialEq, Eq, Structural)]
pub struct TelemetryPacket {
    /// Battery voltage (mV), 0 when unknown.
    pub battery_mv: u16,
    /// Sequence number of the last control packet received.
    pub last_seq: u16,
    /// Status bits: bit0 link up, bit1 motors enabled, bit2 low battery.
    pub status: u8,
}

/// Low byte of a 16-bit value.
pub open spec fn low_byte(v: u16) -> u8 {
    (v % 256) as u8
}

/// High byte of a 16-bit value.
pub open spec fn high_byte(v: u16) -> u8 {
    (v / 256) as u8
}

/// `v` limited to -1000..=1000.
pub open spec fn clamp_axis(v: int) -> int {
    if v > 1000 {
        1000
    } else if v < -1000 {
        -1000
    } else {
        v
    }
}

/// `v` limited to 0..=100.
pub open spec fn clamp_speed_limit(v: u8) -> u8 {
    if v > 100 {
        100
    } else {
        v
    }
}

fn clamp_i16(v: i16) -> (r: i16)
    ensures
        r == clamp_axis(v as int),
{
    if v > 1000 {
        1000
    } else if v < -1000 {
        -1000
    } else {
        v
    }
}

/// A control packet with its CRC field set to `crc`.
pub open spec fn packet_with_crc(
    magic: u8,
    seq: u16,
    axis_x: i16,
    axis_y: i16,
    buttons: u16,
    speed_limit: u8,
    crc: u16,
) -> ControlPacket {
    ControlPacket { magic, seq, axis_x, axis_y, buttons, speed_limit, crc }
}

impl ControlPacket {
    /// The ten bytes the CRC covers: magic, then each multi-byte field
    /// little-endian (signed axes in two's complement), then the speed limit.
    pub open spec fn crc_bytes(self) -> Seq<u8> {
        seq![
            self.magic,
            low_byte(self.seq),
            high_byte(self.seq),
            low_byte(self.axis_x as u16),
            high_byte(self.axis_x as u16),
            low_byte(self.axis_y as u16),
            high_byte(self.axis_y as u16),
            low_byte(self.buttons),
            high_byte(self.buttons),
            self.speed_limit,
        ]
    }

    /// The packet carries the magic byte and the CRC of its fields.
    pub open spec fn valid(self) -> bool {
        self.magic == MAGIC && self.crc == crc16(self.crc_bytes())
    }

    /// The packet that `new` builds.
    pub open spec fn spec_new(seq: u16, axis_x: i16, axis_y: i16, buttons: u16, speed_limit: u8) -> ControlPacket {
        let p = packet_with_crc(
            MAGIC,
            seq,
            clamp_axis(axis_x as int) as i16,
            clamp_axis(axis_y as int) as i16,
            buttons,
            clamp_speed_limit(speed_limit),
            0,
        );
        ControlPacket { crc: crc16(p.crc_bytes()), ..p }
    }

    /// Builds a packet: axes limited to -1000..=1000, speed limit to 0..=100,
    /// magic and CRC filled in.
    pub fn new(seq: u16, axis_x: i16, axis_y: i16, buttons: u16, speed_limit: u8) -> (p: Self)
        ensures
            p == Self::spec_new(seq, axis_x, axis_y, buttons, speed_limit),
            p.valid(),
            -1000 <= p.axis_x <= 1000,
            -1000 <= p.axis_y <= 1000,
            p.speed_limit <= 100,
    {
        let mut p = Self {
            magic: MAGIC,
            seq,
            axis_x: clamp_i16(axis_x),
            axis_y: clamp_i16(axis_y),
            buttons,
            speed_limit: if speed_limit > 100 {
                100
            } else {
                speed_limit
            },
            crc: 0,
        };
        p.crc = p.compute_crc();
        assert(p.crc_bytes() =~= Self::spec_new(seq, axis_x, axis_y, buttons, speed_limit).crc_bytes());
        p
    }

    /// True when the magic byte is right and the CRC matches the fields.
    pub fn verify(&self) -> (ok: bool)
        ensures
            ok == self.valid(),
    {
        self.magic == MAGIC && self.compute_crc() == self.crc
    }

    fn compute_crc(&self) -> (crc: u16)
        ensures
            crc == crc16(self.crc_bytes()),
    {
        let seq = self.seq;
        let ax = self.axis_x;
        let ay = self.axis_y;
        let bt = self.buttons;
        let bytes: [u8; 10] = [
            self.magic,
            (seq & 0xFF) as u8,
            (seq >> 8) as u8,
            (ax & 0xFF) as u8,
            (ax >> 8) as u8,
            (ay & 0xFF) as u8,
            (ay >> 8) as u8,
            (bt & 0xFF) as u8,
            (bt >> 8) as u8,
            self.speed_limit,
        ];
        proof {
            lemma_u16_bytes(seq);
            lemma_u16_bytes(bt);
            lemma_i16_bytes(ax);
            lemma_i16_bytes(ay);
        }
        assert(bytes@ =~= self.crc_bytes());
        crc16_ccitt_false(bytes.as_slice())
    }
}

/// Every packet that `new` builds passes `verify`.
pub proof fn lemma_new_packet_verifies(seq: u16, axis_x: i16, axis_y: i16, buttons: u16, speed_limit: u8)
    ensures
        ControlPacket::spec_new(seq, axis_x, axis_y, buttons, speed_limit).valid(),
{
}

/// The CRC covers every field but the CRC field itself: two packets that
/// agree on all other fields have the same CRC, whatever their CRC fields hold.
pub proof fn lemma_crc_ignores_crc_field(p: ControlPacket, q: ControlPacket)
    requires
        p.magic == q.magic,
        p.seq == q.seq,
        p.axis_x == q.axis_x,
        p.axis_y == q.axis_y,
        p.buttons == q.buttons,
        p.speed_limit == q.speed_limit,
    ensures
        p.crc_bytes() == q.crc_bytes(),
        crc16(p.crc_bytes()) == crc16(q.crc_bytes()),
{
    assert(p.crc_bytes() =~= q.crc_bytes());
}

/// `q` equals `p` in every field but exactly one.
pub open spec fn differs_in_one_field(p: ControlPacket, q: ControlPacket) -> bool {
    let m = p.magic == q.magic;
    let s = p.seq == q.seq;
    let x = p.axis_x == q.axis_x;
    let y = p.axis_y == q.axis_y;
    let b = p.buttons == q.buttons;
    let l = p.speed_limit == q.speed_limit;
    let c = p.crc == q.crc;
    ||| !m && s && x && y && b && l && c
    ||| m && !s && x && y && b && l && c
    ||| m && s && !x && y && b && l && c
    ||| m && s && x && !y && b && l && c
    ||| m && s && x && y && !b && l && c
    ||| m && s && x && y && b && !l && c
    ||| m && s && x && y && b && l && !c
}

proof fn lemma_u16_bytes_injective(v: u16, w: u16)
    requires
        v != w,
    ensures
        low_byte(v) != low_byte(w) || high_byte(v) != high_byte(w),
{
}

proof fn lemma_i16_bytes_injective(v: i16, w: i16)
    requires
        v != w,
    ensures
        low_byte(v as u16) != low_byte(w as u16) || high_byte(v as u16) != high_byte(w as u16),
{
    assert(v != w ==> v as u16 != w as u16) by (bit_vector);
    lemma_u16_bytes_injective(v as u16, w as u16);
}

/// Integrity: changing any one field of a valid packet (for instance by
/// corruption on the air) always makes it fail verification. Each field
/// spans at most two adjacent CRC-covered bytes, and CRC-16/CCITT-FALSE
/// detects every change confined to two adjacent bytes.
pub proof fn lemma_single_field_change_rejected(p: ControlPacket, q: ControlPacket)
    requires
        p.valid(),
        differs_in_one_field(p, q),
    ensures
        !q.valid(),
{
    let m1 = p.crc_bytes();
    let m2 = q.crc_bytes();
    if p.magic != q.magic || p.crc != q.crc {
    } else {
        let k: int = if p.seq != q.seq {
            lemma_u16_bytes_injective(p.seq, q.seq);
            1
        } else if p.axis_x != q.axis_x {
            lemma_i16_bytes_injective(p.axis_x, q.axis_x);
            3
        } else if p.axis_y != q.axis_y {
            lemma_i16_bytes_injective(p.axis_y, q.axis_y);
            5
        } else if p.buttons != q.buttons {
            lemma_u16_bytes_injective(p.buttons, q.buttons);
            7
        } else {
            8
        };
        assert(m1[k] != m2[k] || m1[k + 1] != m2[k + 1]);
        lemma_crc16_detects_two_byte_burst(m1, m2, k);
    }
}

proof fn lemma_u16_bytes(v: u16)
    ensures
        (v & 0xFF) as u8 == low_byte(v),
        (v >> 8) as u8 == high_byte(v),
{
    assert((v & 0xFF) as u8 == (v % 256) as u8) by (bit_vector);
    assert((v >> 8) as u8 == (v / 256) as u8) by (bit_vector);
}

proof fn lemma_i16_bytes(v: i16)
    ensures
        (v & 0xFF) as u8 == low_byte(v as u16),
        (v >> 8) as u8 == high_byte(v as u16),
{
    assert((v & 0xFF) as u8 == ((v as u16) % 256) as u8) by (bit_vector);
    assert((v >> 8) as u8 == ((v as u16) / 256) as u8) by (bit_vector);
}

} // verus!
