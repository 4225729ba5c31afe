//! Pin assignment and PWM settings of the car board (RP2040).

use vstd::prelude::*;

verus! {

/// nRF24L01 SPI clock (SPI0).
pub const NRF_SCK: usize = 2;
/// nRF24L01 SPI MOSI.
pub const NRF_MOSI: usize = 3;
/// nRF24L01 SPI MISO.
pub const NRF_MISO: usize = 4;
/// nRF24L01 chip select, driven by hand.
pub const NRF_CSN: usize = 5;
/// nRF24L01 chip enable.
pub const NRF_CE: usize = 6;
/// nRF24L01 interrupt (unused).
pub const NRF_IRQ: usize = 7;

/// Left wheels' PWM (slice 4, channel A).
pub const PWM_LEFT_PIN: usize = 8;
/// Right wheels' PWM (slice 5, channel A).
pub const PWM_RIGHT_PIN: usize = 10;

/// Left side forward direction pin.
pub const DIR_LEFT_FWD: usize = 12;
/// Left side reverse direction pin.
pub const DIR_LEFT_REV: usize = 13;
/// Right side forward direction pin.
pub const DIR_RIGHT_FWD: usize = 14;
/// Right side reverse direction pin.
pub const DIR_RIGHT_REV: usize = 15;

/// On-board LED.
pub const LED_PIN: usize = 25;

/// PWM counter top: full speed 1000 maps to this duty.
pub const PWM_TOP: u16 = 32767;

} // verus!
