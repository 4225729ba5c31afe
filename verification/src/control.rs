//! Differential-drive ("arcade") mixing: joystick (x, y) to left and right
//! wheel speeds.
//!
//! Axes: y > 0 forward, y < 0 backward, x > 0 right, x < 0 left, each in
//! -1000..=1000. left = clamp(y + x), right = clamp(y - x): centred stick
//! stops both wheels, full forward drives both at full speed, stick pushed
//! right alone spins the car to the right in place.

use vstd::prelude::*;
use crate::protocol::clamp_axis;

verus! {

/// Left and right wheel speeds for stick position (x, y).
pub open spec fn mix(x: int, y: int) -> (int, int) {
    (clamp_axis(y + x), clamp_axis(y - x))
}

fn clamp_wheel(v: i32) -> (r: i16)
    ensures
        r == clamp_axis(v as int),
{
    if v > 1000 {
        1000
    } else if v < -1000 {
        -1000
    } else {
        v as i16
    }
}

/// Returns (left wheel speed, right wheel speed), each in -1000..=1000.
pub fn arcade_mix(axis_x: i16, axis_y: i16) -> (r: (i16, i16))
    ensures
        r.0 == mix(axis_x as int, axis_y as int).0,
        r.1 == mix(axis_x as int, axis_y as int).1,
        -1000 <= r.0 <= 1000,
        -1000 <= r.1 <= 1000,
{
    // i32 keeps the sum and difference from overflowing.
    let lx = axis_x as i32;
    let ly = axis_y as i32;
    let left = clamp_wheel(ly + lx);
    let right = clamp_wheel(ly - lx);
    (left, right)
}

/// Mirroring the stick left-right swaps the two wheels.
pub proof fn lemma_mix_mirror(x: int, y: int)
    ensures
        mix(-x, y) == (mix(x, y).1, mix(x, y).0),
{
}

/// With the stick on the vertical axis both wheels turn alike: the car goes
/// straight.
pub proof fn lemma_mix_straight(y: int)
    ensures
        mix(0, y).0 == mix(0, y).1,
{
}

/// With the stick on the horizontal axis the wheels turn opposite ways at
/// the same speed: the car spins in place (right for x > 0, left for x < 0).
pub proof fn lemma_mix_spin_in_place(x: int)
    ensures
        mix(x, 0).0 == -mix(x, 0).1,
        x > 0 ==> mix(x, 0).0 > 0 && mix(x, 0).1 < 0,
        x < 0 ==> mix(x, 0).0 < 0 && mix(x, 0).1 > 0,
{
}

/// Pushing the stick further forward never slows either wheel.
pub proof fn lemma_mix_monotone_forward(x: int, y1: int, y2: int)
    requires
        y1 <= y2,
    ensures
        mix(x, y1).0 <= mix(x, y2).0,
        mix(x, y1).1 <= mix(x, y2).1,
{
}

/// Within range the mix is the plain sum and difference of the axes; outside
/// it saturates at the nearer end of -1000..=1000.
pub proof fn lemma_mix_sum_and_difference(x: int, y: int)
    ensures
        -1000 <= y + x <= 1000 ==> mix(x, y).0 == y + x,
        -1000 <= y - x <= 1000 ==> mix(x, y).1 == y - x,
        y + x > 1000 ==> mix(x, y).0 == 1000,
        y + x < -1000 ==> mix(x, y).0 == -1000,
        y - x > 1000 ==> mix(x, y).1 == 1000,
        y - x < -1000 ==> mix(x, y).1 == -1000,
{
}

} // verus!
