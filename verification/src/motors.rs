//! Two L298N bridges driving four wheels as two sides (differential drive).
//! Each side has one PWM output (speed) and two direction pins (forward,
//! reverse); the front and rear motor of a side are wired in parallel.
//!
//! `Motors` here is the state commanded to the hardware: the duty and the
//! direction of each side.

use vstd::prelude::*;
use vstd::arithmetic::div_mod::lemma_div_is_ordered;
use vstd::arithmetic::mul::lemma_mul_inequality;
use crate::car_config::PWM_TOP;

verus! {

/// Direction of one side.
#[derive(Clone, Copy, Debug, PartialEq, Eq, Structural)]
pub enum Dir {
    Stop,
    Forward,
    Reverse,
}

/// Levels (forward pin, reverse pin) for a direction, `true` meaning high.
pub open spec fn dir_levels(dir: Dir) -> (bool, bool) {
    match dir {
        Dir::Stop => (false, false),
        Dir::Forward => (true, false),
        Dir::Reverse => (false, true),
    }
}

/// The levels to put on a side's two direction pins for `dir`. Both pins
/// are never high together.
pub fn pin_levels(dir: Dir) -> (levels: (bool, bool))
    ensures
        levels == dir_levels(dir),
        !(levels.0 && levels.1),
{
    match dir {
        Dir::Stop => (false, false),
        Dir::Forward => (true, false),
        Dir::Reverse => (false, true),
    }
}

/// Magnitude of a speed, capped at 1000.
pub open spec fn speed_magnitude(val: int) -> int {
    let a = if val < 0 { -val } else { val };
    if a > 1000 { 1000 } else { a }
}

/// PWM duty for speed `val` under limit `limit_pct` percent:
/// |val| (at most 1000) * limit / 100, then scaled from 0..=1000 to 0..=PWM_TOP.
pub open spec fn scaled_duty(val: int, limit_pct: int) -> int {
    (speed_magnitude(val) * limit_pct / 100) * (PWM_TOP as int) / 1000
}

/// Direction for a signed speed.
pub open spec fn speed_dir(val: int) -> Dir {
    if val > 0 {
        Dir::Forward
    } else if val < 0 {
        Dir::Reverse
    } else {
        Dir::Stop
    }
}

/// Maps a speed in -1000..=1000 and a limit in percent to (PWM duty, direction).
pub fn scale(val: i16, limit_pct: i32) -> (r: (u16, Dir))
    requires
        0 <= limit_pct <= 100,
    ensures
        r.0 == scaled_duty(val as int, limit_pct as int),
        r.1 == speed_dir(val as int),
        r.0 <= PWM_TOP,
{
    let a: i32 = if val < 0 {
        -(val as i32)
    } else {
        val as i32
    };
    let mag: i32 = if a > 1000 {
        1000
    } else {
        a
    };
    assert(0 <= mag * limit_pct <= 100000) by (nonlinear_arith)
        requires
            0 <= mag <= 1000,
            0 <= limit_pct <= 100,
    ;
    let scaled: i32 = (mag * limit_pct) / 100;
    assert(0 <= scaled <= 1000);
    assert(0 <= (scaled as u32) * 32767 <= 32767000) by (nonlinear_arith)
        requires
            0 <= scaled <= 1000,
    ;
    let duty = ((scaled as u32) * (PWM_TOP as u32) / 1000) as u16;
    let dir = if val > 0 {
        Dir::Forward
    } else if val < 0 {
        Dir::Reverse
    } else {
        Dir::Stop
    };
    (duty, dir)
}

/// What one side is commanded to do.
#[derive(Clone, Copy, Debug, PartialEq, Eq, Structural)]
pub struct SideOutput {
    /// PWM duty, 0..=PWM_TOP.
    pub duty: u16,
    /// Direction pins.
    pub dir: Dir,
}

/// A stopped side: duty zero, both direction pins low.
pub open spec fn stopped_side() -> SideOutput {
    SideOutput { duty: 0, dir: Dir::Stop }
}

/// The side output for speed `val` under limit `limit_pct`.
pub open spec fn side_for(val: int, limit_pct: int) -> SideOutput {
    SideOutput { duty: scaled_duty(val, limit_pct) as u16, dir: speed_dir(val) }
}

/// The limit that `drive` applies: the speed limit capped to 0..=100.
pub open spec fn limit_of(speed_limit: u8) -> int {
    if speed_limit > 100 { 100 } else { speed_limit as int }
}

/// The commanded state of both sides.
#[derive(Clone, Copy, Debug, PartialEq, Eq, Structural)]
pub struct Motors {
    pub left: SideOutput,
    pub right: SideOutput,
}

impl Motors {
    /// Starts with both sides stopped.
    pub fn new() -> (m: Motors)
        ensures
            m.left == stopped_side(),
            m.right == stopped_side(),
    {
        let mut m = Motors {
            left: SideOutput { duty: 0, dir: Dir::Stop },
            right: SideOutput { duty: 0, dir: Dir::Stop },
        };
        m.stop();
        m
    }

    /// Stops at once: duty zero and both direction pins low on each side.
    pub fn stop(&mut self)
        ensures
            final(self).left == stopped_side(),
            final(self).right == stopped_side(),
    {
        self.left = SideOutput { duty: 0, dir: Dir::Stop };
        self.right = SideOutput { duty: 0, dir: Dir::Stop };
    }

    /// Sets both sides: `left`/`right` in -1000..=1000 (positive forward,
    /// negative backward, zero stop), `speed_limit` 0..=100 percent overall.
    pub fn drive(&mut self, left: i16, right: i16, speed_limit: u8)
        ensures
            final(self).left == side_for(left as int, limit_of(speed_limit)),
            final(self).right == side_for(right as int, limit_of(speed_limit)),
            final(self).left.duty <= PWM_TOP,
            final(self).right.duty <= PWM_TOP,
    {
        let limit_pct: i32 = if speed_limit > 100 {
            100
        } else {
            speed_limit as i32
        };
        let (duty, dir) = scale(left, limit_pct);
        self.left = SideOutput { duty, dir };
        let (duty, dir) = scale(right, limit_pct);
        self.right = SideOutput { duty, dir };
    }
}

/// The duty never exceeds the PWM top.
pub proof fn lemma_duty_bounded(val: int, limit_pct: int)
    requires
        0 <= limit_pct <= 100,
    ensures
        0 <= scaled_duty(val, limit_pct) <= PWM_TOP,
{
    let m = speed_magnitude(val);
    assert(0 <= m * limit_pct <= 100000) by (nonlinear_arith)
        requires
            0 <= m <= 1000,
            0 <= limit_pct <= 100,
    ;
    let s = m * limit_pct / 100;
    assert(0 <= s * 32767 <= 32767000) by (nonlinear_arith)
        requires
            0 <= s <= 1000,
    ;
}

/// A faster speed, or a higher limit, never gives a smaller duty.
pub proof fn lemma_duty_monotone(v1: int, v2: int, l1: int, l2: int)
    requires
        speed_magnitude(v1) <= speed_magnitude(v2),
        0 <= l1 <= l2 <= 100,
    ensures
        scaled_duty(v1, l1) <= scaled_duty(v2, l2),
{
    let m1 = speed_magnitude(v1);
    let m2 = speed_magnitude(v2);
    lemma_mul_inequality(m1, m2, l1);
    assert(m2 * l1 <= m2 * l2) by (nonlinear_arith)
        requires
            0 <= m2,
            l1 <= l2,
    ;
    lemma_div_is_ordered(m1 * l1, m2 * l2, 100);
    let s1 = m1 * l1 / 100;
    let s2 = m2 * l2 / 100;
    lemma_mul_inequality(s1, s2, PWM_TOP as int);
    lemma_div_is_ordered(s1 * (PWM_TOP as int), s2 * (PWM_TOP as int), 1000);
}

/// Full stick at a 100 % limit gives the full PWM top; a zero speed or a
/// zero limit gives a zero duty.
pub proof fn lemma_duty_extremes(val: int, limit_pct: int)
    ensures
        speed_magnitude(val) == 1000 && limit_pct == 100 ==> scaled_duty(val, limit_pct) == PWM_TOP,
        val == 0 || limit_pct == 0 ==> scaled_duty(val, limit_pct) == 0,
{
    let m = speed_magnitude(val);
    if val == 0 || limit_pct == 0 {
        assert(m * limit_pct == 0) by (nonlinear_arith)
            requires
                m == 0 || limit_pct == 0,
        ;
    }
}

/// `drive` applies the speed limit it is given whenever that is a valid
/// percentage (0..=100), and 100 % for anything larger.
pub proof fn lemma_drive_applies_given_limit(speed_limit: u8, val: int)
    ensures
        speed_limit <= 100 ==> side_for(val, limit_of(speed_limit)) == side_for(val, speed_limit as int),
        speed_limit > 100 ==> side_for(val, limit_of(speed_limit)) == side_for(val, 100),
{
}

/// At full speed the duty is the limit's share of the PWM top:
/// `limit * PWM_TOP / 100` (so 75 % gives 24575, 50 % gives 16383), and
/// beyond full speed the duty no longer grows.
pub proof fn lemma_full_speed_duty(val: int, limit_pct: int)
    requires
        0 <= limit_pct <= 100,
        val >= 1000 || val <= -1000,
    ensures
        scaled_duty(val, limit_pct) == limit_pct * 32767 / 100,
{
    assert(1000 * limit_pct / 100 == 10 * limit_pct) by (nonlinear_arith)
        requires
            0 <= limit_pct <= 100,
    ;
    assert((10 * limit_pct) * 32767 / 1000 == limit_pct * 32767 / 100) by (nonlinear_arith)
        requires
            0 <= limit_pct <= 100,
    ;
}

/// The duty depends on the speed's magnitude only, never on its sign; the
/// sign sets the direction.
pub proof fn lemma_duty_ignores_sign(val: int, limit_pct: int)
    ensures
        scaled_duty(val, limit_pct) == scaled_duty(-val, limit_pct),
        val > 0 ==> speed_dir(val) == Dir::Forward && speed_dir(-val) == Dir::Reverse,
{
}

} // verus!
