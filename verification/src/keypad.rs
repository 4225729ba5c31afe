//! The remote's input handling: joystick readings to axis values, buttons to
//! the packet's bitmap, the A+D speed-limit cycle, the transmit LED and the display
//! animation counters, one tick (100 ms, `KEYPAD_TICK_HZ`) at a time; and the
//! control packets it sends, numbered one after another.

use vstd::prelude::*;
use vstd::arithmetic::div_mod::lemma_div_is_ordered;
use vstd::arithmetic::mul::lemma_mul_inequality;
use crate::keypad_config::{JOY_CENTER, JOY_DEADZONE};
use crate::protocol::button::{BTN_A, BTN_B, BTN_C, BTN_D};
use crate::protocol::ControlPacket;

verus! {

/// Offset from the centre beyond the dead zone that maps to full deflection:
/// ADC_MAX / 2 - JOY_DEADZONE.
pub open spec fn full_span() -> int {
    JOY_CENTER - JOY_DEADZONE
}

/// Axis value, -1000..=1000, for joystick ADC reading `raw`: zero inside the
/// dead zone around the centre, then linear beyond it, capped at 1000.
pub open spec fn axis_from_adc(raw: int) -> int {
    let diff = raw - JOY_CENTER;
    let a = if diff < 0 { -diff } else { diff };
    if a < JOY_DEADZONE {
        0
    } else {
        let m = (a - JOY_DEADZONE) * 1000 / full_span();
        let s = if m > 1000 { 1000 } else { m };
        if diff > 0 { s } else { -s }
    }
}

/// Maps a joystick ADC reading to an axis value.
pub fn analog_to_axis(raw: u16) -> (axis: i16)
    ensures
        axis == axis_from_adc(raw as int),
        -1000 <= axis <= 1000,
{
    let center = JOY_CENTER as i32;
    let dead = JOY_DEADZONE as i32;
    let diff = (raw as i32) - center;
    let a: i32 = if diff < 0 {
        -diff
    } else {
        diff
    };
    if a < dead {
        0
    } else {
        let sign: i32 = if diff > 0 {
            1
        } else {
            -1
        };
        let magnitude = a - dead;
        let max_mag = (JOY_CENTER as i32) - dead;
        assert(0 <= magnitude * 1000 <= 63535000) by (nonlinear_arith)
            requires
                0 <= magnitude <= 63535,
        ;
        let m = magnitude * 1000 / max_mag;
        let scaled = if m > 1000 {
            1000
        } else {
            m
        };
        (sign * scaled) as i16
    }
}

/// Readings closer to the centre than the dead zone give zero.
pub proof fn lemma_axis_dead_zone(raw: int)
    requires
        JOY_CENTER - JOY_DEADZONE < raw < JOY_CENTER + JOY_DEADZONE,
    ensures
        axis_from_adc(raw) == 0,
{
}

/// The ends of the ADC range give full deflection.
pub proof fn lemma_axis_full_deflection()
    ensures
        axis_from_adc(0) == -1000,
        axis_from_adc(4095) == 1000,
{
    assert(1947 * 1000 / 1947 == 1000) by (nonlinear_arith);
    assert(1948 * 1000 / 1947 == 1000) by (nonlinear_arith);
}

proof fn lemma_axis_magnitude_monotone(a1: int, a2: int)
    requires
        JOY_DEADZONE <= a1 <= a2,
    ensures
        (a1 - JOY_DEADZONE) * 1000 / full_span() <= (a2 - JOY_DEADZONE) * 1000 / full_span(),
        0 <= (a1 - JOY_DEADZONE) * 1000 / full_span(),
{
    lemma_mul_inequality(a1 - JOY_DEADZONE, a2 - JOY_DEADZONE, 1000);
    lemma_div_is_ordered((a1 - JOY_DEADZONE) * 1000, (a2 - JOY_DEADZONE) * 1000, full_span());
    lemma_mul_inequality(0, a1 - JOY_DEADZONE, 1000);
    lemma_div_is_ordered(0, (a1 - JOY_DEADZONE) * 1000, full_span());
}

/// Moving the stick further in one direction never moves the axis value
/// the other way.
pub proof fn lemma_axis_monotone(r1: int, r2: int)
    requires
        r1 <= r2,
    ensures
        axis_from_adc(r1) <= axis_from_adc(r2),
{
    let d1 = r1 - JOY_CENTER;
    let d2 = r2 - JOY_CENTER;
    let a1 = if d1 < 0 { -d1 } else { d1 };
    let a2 = if d2 < 0 { -d2 } else { d2 };
    if a1 >= JOY_DEADZONE {
        lemma_axis_magnitude_monotone(a1, a1);
    }
    if a2 >= JOY_DEADZONE {
        lemma_axis_magnitude_monotone(a2, a2);
    }
    if d1 > 0 && a1 >= JOY_DEADZONE {
        lemma_axis_magnitude_monotone(a1, a2);
    }
    if d2 < 0 && a2 >= JOY_DEADZONE {
        lemma_axis_magnitude_monotone(a2, a1);
    }
}

/// Readings mirrored about the centre give opposite axis values.
pub proof fn lemma_axis_symmetric(d: int)
    ensures
        axis_from_adc(JOY_CENTER + d) == -axis_from_adc(JOY_CENTER - d),
{
}

/// The button bitmap sent in control packets, from the pressed state of
/// buttons A to D (bit 0 to bit 3).
pub fn buttons_from_pressed(a: bool, b: bool, c: bool, d: bool) -> (buttons: u16)
    ensures
        (buttons & BTN_A != 0) == a,
        (buttons & BTN_B != 0) == b,
        (buttons & BTN_C != 0) == c,
        (buttons & BTN_D != 0) == d,
        buttons < 16,
{
    let ba: u16 = if a {
        BTN_A
    } else {
        0
    };
    let bb: u16 = if b {
        BTN_B
    } else {
        0
    };
    let bc: u16 = if c {
        BTN_C
    } else {
        0
    };
    let bd: u16 = if d {
        BTN_D
    } else {
        0
    };
    let buttons = ba | bb | bc | bd;
    assert(((buttons & 1u16) != 0) == a && ((buttons & 2u16) != 0) == b && ((buttons & 4u16)
        != 0) == c && ((buttons & 8u16) != 0) == d && buttons < 16) by (bit_vector)
        requires
            ba == (if a { 1u16 } else { 0u16 }),
            bb == (if b { 2u16 } else { 0u16 }),
            bc == (if c { 4u16 } else { 0u16 }),
            bd == (if d { 8u16 } else { 0u16 }),
            buttons == ba | bb | bc | bd,
    ;
    buttons
}

/// Rate of the remote's input and animation tick (Hz); control packets go
/// out faster, at `TX_RATE_HZ`.
pub const KEYPAD_TICK_HZ: u64 = 10;

/// The sequence number after `seq`, wrapping from 65535 to 0.
pub open spec fn next_seq(seq: u16) -> u16 {
    if seq == u16::MAX { 0 } else { (seq + 1) as u16 }
}

/// Builds the control packet numbered `seq` from the remote's inputs, and
/// the number the next packet takes: one more, wrapping at 65536.
pub fn build_control_packet(seq: u16, axis_x: i16, axis_y: i16, buttons: u16, speed_limit: u8) -> (r: (ControlPacket, u16))
    ensures
        r.0 == ControlPacket::spec_new(seq, axis_x, axis_y, buttons, speed_limit),
        r.0.valid(),
        r.1 == next_seq(seq),
{
    let pkt = ControlPacket::new(seq, axis_x, axis_y, buttons, speed_limit);
    (pkt, seq.wrapping_add(1))
}

/// Consecutive packets carry consecutive sequence numbers (mod 65536), so a
/// gap at the receiver counts lost packets.
pub proof fn lemma_seq_counts_packets(seq: u16)
    ensures
        next_seq(seq) as int == (seq as int + 1) % 65536,
{
}

/// Speed limit at power-on (%).
pub const DEFAULT_SPEED_LIMIT: u8 = 50;

/// The eye animation advances once every this many ticks.
pub const FRAME_TICKS: u32 = 3;

/// The face on the display changes once every this many ticks.
pub const EMOTION_TICKS: u32 = 30;

/// Frames in each face's animation.
pub const FRAME_COUNT: usize = 2;

/// The speed limit after pressing A and D together: 25 -> 50 -> 75 -> 100
/// -> 25, and any other value back to 25.
pub open spec fn next_limit(limit: u8) -> u8 {
    if limit == 25 {
        50
    } else if limit == 50 {
        75
    } else if limit == 75 {
        100
    } else {
        25
    }
}

/// Steps the speed limit through its four settings.
pub fn next_speed_limit(limit: u8) -> (next: u8)
    ensures
        next == next_limit(limit),
{
    match limit {
        25 => 50,
        50 => 75,
        75 => 100,
        _ => 25,
    }
}

/// Buttons A and D are both held.
pub open spec fn speed_combo(buttons: u16) -> bool {
    buttons & BTN_A != 0 && buttons & BTN_D != 0
}

/// State of the remote's main loop.
#[derive(Clone, Copy, Debug, PartialEq, Eq, Structural)]
pub struct KeypadState {
    /// Face shown on the display.
    pub emotion_idx: usize,
    /// Animation frame of that face.
    pub frame: usize,
    /// Ticks since power-on.
    pub tick_count: u32,
    /// Speed limit sent to the car (%).
    pub speed_limit: u8,
    /// Status LED: lit while the last control packet was sent successfully.
    pub led_on: bool,
}

/// The state after one tick with `buttons` held, `sent` the outcome of the
/// last control packet's transmission, and `emotion_count` faces.
pub open spec fn next_keypad(s: KeypadState, buttons: u16, sent: bool, emotion_count: usize) -> KeypadState {
    let limit = if speed_combo(buttons) { next_limit(s.speed_limit) } else { s.speed_limit };
    let led = sent;
    let frame = if s.tick_count % FRAME_TICKS == 0 { (s.frame + 1) % 2 } else { s.frame as int };
    let change = s.tick_count % EMOTION_TICKS == 0 && s.tick_count > 0;
    KeypadState {
        emotion_idx: if change { ((s.emotion_idx + 1) % (emotion_count as int)) as usize } else { s.emotion_idx },
        frame: if change { 0 } else { frame as usize },
        tick_count: (s.tick_count + 1) as u32,
        speed_limit: limit,
        led_on: led,
    }
}

impl KeypadState {
    /// The face and frame index into a table of `emotion_count` faces.
    pub open spec fn wf(self, emotion_count: usize) -> bool {
        self.emotion_idx < emotion_count && self.frame < FRAME_COUNT
    }

    /// Power-on state: first face, first frame, limit 50 %, LED off.
    pub fn new() -> (s: KeypadState)
        ensures
            s == (KeypadState { emotion_idx: 0, frame: 0, tick_count: 0, speed_limit: DEFAULT_SPEED_LIMIT, led_on: false }),
    {
        KeypadState { emotion_idx: 0, frame: 0, tick_count: 0, speed_limit: DEFAULT_SPEED_LIMIT, led_on: false }
    }

    /// One tick of the remote's loop with `buttons` held (see
    /// `buttons_from_pressed`), `sent` telling whether the last control
    /// packet went out (the LED is lit on success, dark on failure or when
    /// nothing was sent), and a table of `emotion_count` faces.
    pub fn tick(&mut self, buttons: u16, sent: bool, emotion_count: usize)
        requires
            old(self).wf(emotion_count),
            old(self).tick_count < u32::MAX,
        ensures
            *final(self) == next_keypad(*old(self), buttons, sent, emotion_count),
            final(self).led_on == sent,
            final(self).wf(emotion_count),
    {
        if buttons & BTN_A != 0 && buttons & BTN_D != 0 {
            self.speed_limit = next_speed_limit(self.speed_limit);
        }
        self.led_on = sent;
        if self.tick_count % FRAME_TICKS == 0 {
            self.frame = (self.frame + 1) % FRAME_COUNT;
        }
        if self.tick_count % EMOTION_TICKS == 0 && self.tick_count > 0 {
            self.emotion_idx = (self.emotion_idx + 1) % emotion_count;
            self.frame = 0;
        }
        self.tick_count = self.tick_count + 1;
    }
}

/// The speed limit changes in a tick exactly when buttons A (bit 0) and D
/// (bit 3) are both held, and then moves to the next setting; every other
/// combination, D alone included, leaves it as it was.
pub proof fn lemma_limit_steps_only_on_a_and_d(s: KeypadState, buttons: u16, sent: bool, emotion_count: usize)
    ensures
        (buttons & 1u16 != 0 && buttons & 8u16 != 0) ==> next_keypad(s, buttons, sent, emotion_count).speed_limit
            == next_limit(s.speed_limit),
        !(buttons & 1u16 != 0 && buttons & 8u16 != 0) ==> next_keypad(s, buttons, sent, emotion_count).speed_limit
            == s.speed_limit,
{
}

/// The four settings follow one another 25 -> 50 -> 75 -> 100 -> 25, and any
/// other value goes back to 25.
pub proof fn lemma_speed_limit_successors(limit: u8)
    ensures
        next_limit(25) == 50,
        next_limit(50) == 75,
        next_limit(75) == 100,
        next_limit(100) == 25,
        limit != 25 && limit != 50 && limit != 75 ==> next_limit(limit) == 25,
{
}

/// Pressing A+D four times brings any of the four settings back to itself,
/// and the limit is always one of 25, 50, 75, 100 after a press.
pub proof fn lemma_speed_limit_cycle(limit: u8)
    ensures
        (limit == 25 || limit == 50 || limit == 75 || limit == 100) ==> next_limit(next_limit(next_limit(next_limit(limit)))) == limit,
        next_limit(limit) == 25 || next_limit(limit) == 50 || next_limit(limit) == 75 || next_limit(limit) == 100,
{
}

} // verus!
