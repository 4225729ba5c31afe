//! Bits of `ControlPacket::buttons`.

use vstd::prelude::*;

verus! {

/// Button A (bit 0).
pub const BTN_A: u16 = 1;
/// Button B (bit 1).
pub const BTN_B: u16 = 2;
/// Button C (bit 2).
pub const BTN_C: u16 = 4;
/// Button D (bit 3).
pub const BTN_D: u16 = 8;
/// Shift button (bit 4).
pub const BTN_SHIFT: u16 = 16;

} // verus!
