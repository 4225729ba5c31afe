//! Pin assignment and analog settings of the handheld remote (ESP32).

use vstd::prelude::*;

verus! {

/// nRF24L01 SPI clock (SPI2).
pub const NRF_SCK: u8 = 18;
/// nRF24L01 SPI MOSI.
pub const NRF_MOSI: u8 = 23;
/// nRF24L01 SPI MISO.
pub const NRF_MISO: u8 = 19;
/// nRF24L01 chip select.
pub const NRF_CSN: u8 = 5;
/// nRF24L01 chip enable.
pub const NRF_CE: u8 = 4;

/// Button A (active low, internal pull-up).
pub const BTN_A: u8 = 0;
/// Button B.
pub const BTN_B: u8 = 17;
/// Button C.
pub const BTN_C: u8 = 25;
/// Button D.
pub const BTN_D: u8 = 26;

/// OLED I2C data.
pub const I2C_SDA: u8 = 22;
/// OLED I2C clock.
pub const I2C_SCL: u8 = 21;

/// Status LED.
pub const LED_PIN: u8 = 2;

/// Largest 12-bit ADC reading (joystick X on GPIO36, Y on GPIO39).
pub const ADC_MAX: u16 = 4095;
/// ADC reading of a centred joystick.
pub const JOY_CENTER: u16 = ADC_MAX / 2;
/// Offsets from the centre smaller than this read as zero.
pub const JOY_DEADZONE: u16 = 100;

} // verus!
