//! The car's control loop decisions, one tick at a time (100 Hz): a valid
//! control packet drives the motors through the arcade mix and lights the
//! LED; without one, once the failsafe timeout has passed since the last
//! packet (or none ever came), the motors stop and the LED goes dark.

use vstd::prelude::*;
use crate::control::{arcade_mix, mix};
use crate::motors::{limit_of, side_for, stopped_side, Motors};
use crate::protocol::{ControlPacket, FAILSAFE_TIMEOUT_MS};
use crate::radio::RadioError;

verus! {

/// Milliseconds from `last` to `now` on a wrapping 64-bit clock.
pub open spec fn elapsed_ms(last: u64, now: u64) -> int {
    if now >= last {
        now - last
    } else {
        now - last + 0x1_0000_0000_0000_0000
    }
}

/// The link counts as lost when no packet was ever recorded (0) or the last
/// one is older than the failsafe timeout.
pub open spec fn link_lost(last_pkt_ms: u64, now_ms: u64) -> bool {
    last_pkt_ms == 0 || elapsed_ms(last_pkt_ms, now_ms) > FAILSAFE_TIMEOUT_MS
}

/// Whether the failsafe must act at `now_ms`, given the time of the last
/// valid packet (0 when none was ever received).
pub fn failsafe_expired(last_pkt_ms: u64, now_ms: u64) -> (expired: bool)
    ensures
        expired == link_lost(last_pkt_ms, now_ms),
{
    if last_pkt_ms == 0 {
        true
    } else {
        now_ms.wrapping_sub(last_pkt_ms) > FAILSAFE_TIMEOUT_MS
    }
}

/// State of the car controller: time of the last valid packet (ms, 0 for
/// never), commanded motor outputs, and the link LED.
#[derive(Clone, Copy, Debug, PartialEq, Eq, Structural)]
pub struct CarState {
    pub last_pkt_ms: u64,
    pub motors: Motors,
    pub led_on: bool,
}

/// Motors driven by packet `p`.
pub open spec fn motors_for(p: ControlPacket) -> Motors {
    Motors {
        left: side_for(mix(p.axis_x as int, p.axis_y as int).0, limit_of(p.speed_limit)),
        right: side_for(mix(p.axis_x as int, p.axis_y as int).1, limit_of(p.speed_limit)),
    }
}

/// Both sides stopped.
pub open spec fn motors_stopped(m: Motors) -> bool {
    m.left == stopped_side() && m.right == stopped_side()
}

/// The state after one tick at `now_ms` in which `latest` was received.
pub open spec fn next_state(s: CarState, latest: Option<ControlPacket>, now_ms: u64) -> CarState {
    match latest {
        Some(p) => CarState { last_pkt_ms: now_ms, motors: motors_for(p), led_on: true },
        None => if link_lost(s.last_pkt_ms, now_ms) {
            CarState {
                last_pkt_ms: s.last_pkt_ms,
                motors: Motors { left: stopped_side(), right: stopped_side() },
                led_on: false,
            }
        } else {
            s
        },
    }
}

/// The packet a receive outcome hands to the control loop: only an accepted
/// payload; a rejected one counts as nothing received.
pub open spec fn accepted_packet(received: Option<Result<ControlPacket, RadioError>>) -> Option<ControlPacket> {
    match received {
        Some(Ok(p)) => Some(p),
        _ => None,
    }
}

impl CarState {
    /// Power-on state: nothing received, motors stopped, LED off.
    pub fn new() -> (s: CarState)
        ensures
            s.last_pkt_ms == 0,
            motors_stopped(s.motors),
            !s.led_on,
    {
        CarState { last_pkt_ms: 0, motors: Motors::new(), led_on: false }
    }

    /// One tick of the control loop at `now_ms`, with the newest valid
    /// control packet if one arrived.
    pub fn tick(&mut self, latest: Option<ControlPacket>, now_ms: u64)
        ensures
            *final(self) == next_state(*old(self), latest, now_ms),
    {
        match latest {
            Some(pkt) => {
                self.last_pkt_ms = now_ms;
                let (left, right) = arcade_mix(pkt.axis_x, pkt.axis_y);
                self.motors.drive(left, right, pkt.speed_limit);
                self.led_on = true;
            },
            None => {
                if failsafe_expired(self.last_pkt_ms, now_ms) {
                    self.motors.stop();
                    self.led_on = false;
                }
            },
        }
    }

    /// One tick at `now_ms` given what the radio delivered: nothing, a payload
    /// rejected by `parse_payload` (length, decoding, magic or CRC), or an
    /// accepted packet. A rejected payload is dropped: it leaves the motors as
    /// a tick without a packet would, and does not renew the failsafe timer.
    pub fn tick_received(&mut self, received: Option<Result<ControlPacket, RadioError>>, now_ms: u64)
        ensures
            *final(self) == next_state(*old(self), accepted_packet(received), now_ms),
    {
        let latest = match received {
            Some(Ok(p)) => Some(p),
            _ => None,
        };
        self.tick(latest, now_ms);
    }
}

/// Failsafe: a tick without a packet, once the timeout has passed since the
/// last one (or when none ever came), leaves the motors stopped and the LED
/// off.
pub proof fn lemma_failsafe_stops(s: CarState, now_ms: u64)
    requires
        link_lost(s.last_pkt_ms, now_ms),
    ensures
        motors_stopped(next_state(s, None, now_ms).motors),
        !next_state(s, None, now_ms).led_on,
{
}

/// A payload that fails the checks changes the state exactly as receiving
/// nothing would: it never drives the motors nor renews the failsafe timer.
pub proof fn lemma_rejected_payload_is_silent(s: CarState, e: RadioError, now_ms: u64)
    ensures
        next_state(s, accepted_packet(Some(Err(e))), now_ms) == next_state(s, None, now_ms),
        next_state(s, accepted_packet(Some(Err(e))), now_ms).last_pkt_ms == s.last_pkt_ms,
{
}

/// The failsafe fires exactly when more than `FAILSAFE_TIMEOUT_MS` (300 ms)
/// have passed on the wrapping millisecond clock since the last packet, with
/// no upper bound on the silence, or when no packet was ever recorded.
pub proof fn lemma_link_lost_after_timeout(last: u64, now: u64)
    ensures
        last == 0 ==> link_lost(last, now),
        last != 0 && now >= last ==> (link_lost(last, now) <==> now - last > 300),
        last != 0 && now < last ==> (link_lost(last, now) <==> now + 0x1_0000_0000_0000_0000 - last > 300),
{
}

/// Once lost, the link stays lost as the silence grows: if the failsafe fires
/// at `now1`, it fires at every later `now2` before the clock wraps past the
/// last packet again.
pub proof fn lemma_link_lost_monotone(last: u64, now1: u64, now2: u64)
    requires
        last <= now1 <= now2,
        link_lost(last, now1),
    ensures
        link_lost(last, now2),
{
}

/// After a packet at `t0` (non-zero) and no packet since, a tick more than
/// 300 ms later stops the car, however long the silence.
pub proof fn lemma_silence_after_packet_stops(s: CarState, p: ControlPacket, t0: u64, now: u64)
    requires
        t0 != 0,
        t0 <= now,
        now - t0 > 300,
    ensures
        motors_stopped(next_state(next_state(s, Some(p), t0), None, now).motors),
        !next_state(next_state(s, Some(p), t0), None, now).led_on,
{
}

/// Within the timeout, a tick without a packet changes nothing: the car keeps
/// the last command.
pub proof fn lemma_holds_within_timeout(s: CarState, now_ms: u64)
    requires
        !link_lost(s.last_pkt_ms, now_ms),
    ensures
        next_state(s, None, now_ms) == s,
{
}

/// Silent ticks never move the time of the last packet, so the link is lost
/// exactly when the timeout has passed since the last packet itself.
pub proof fn lemma_silence_keeps_last_packet_time(s: CarState, now_ms: u64)
    ensures
        next_state(s, None, now_ms).last_pkt_ms == s.last_pkt_ms,
{
}

/// Recovery: a valid packet always takes control back, whatever the state:
/// the motors follow the packet and the LED lights.
pub proof fn lemma_packet_restores_control(s: CarState, p: ControlPacket, now_ms: u64)
    ensures
        next_state(s, Some(p), now_ms).motors == motors_for(p),
        next_state(s, Some(p), now_ms).led_on,
        next_state(s, Some(p), now_ms).last_pkt_ms == now_ms,
{
}

/// A dark LED always comes with stopped motors: it holds at power-on and
/// every tick keeps it.
pub proof fn lemma_dark_led_means_stopped(s: CarState, latest: Option<ControlPacket>, now_ms: u64)
    requires
        !next_state(s, latest, now_ms).led_on,
        !s.led_on ==> motors_stopped(s.motors),
    ensures
        motors_stopped(next_state(s, latest, now_ms).motors),
{
}

} // verus!
