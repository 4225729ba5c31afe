//! Verified core of a two-board remote-controlled car: the shared radio
//! protocol (packets, CRC, payload checks), the car's differential-drive and
//! motor-scaling rules, its failsafe, and the handheld remote's input mapping.

pub mod crc;
pub mod protocol;
pub mod control;
pub mod car_config;
pub mod motors;
pub mod radio;
pub mod car;
pub mod keypad_config;
pub mod keypad;
pub mod display;
