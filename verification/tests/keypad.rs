use smart_car::protocol::ControlPacket;
use smart_car::keypad::build_control_packet;
use smart_car::keypad::{analog_to_axis, buttons_from_pressed, next_speed_limit, KeypadState};
use smart_car::protocol::button;

#[test]
fn axis_dead_zone_and_ends() {
    assert_eq!(analog_to_axis(2047), 0);
    assert_eq!(analog_to_axis(2146), 0);
    assert_eq!(analog_to_axis(1948), 0);
    assert_eq!(analog_to_axis(2147), 0);
    assert_eq!(analog_to_axis(4095), 1000);
    assert_eq!(analog_to_axis(0), -1000);
    assert_eq!(analog_to_axis(3000), 438);
    assert_eq!(analog_to_axis(1094), -438);
    assert_eq!(analog_to_axis(u16::MAX), 1000);
}

#[test]
fn button_bitmap() {
    assert_eq!(buttons_from_pressed(false, false, false, false), 0);
    assert_eq!(buttons_from_pressed(true, false, false, true), button::BTN_A | button::BTN_D);
    assert_eq!(buttons_from_pressed(true, true, true, true), 0b1111);
}

#[test]
fn speed_limit_cycles() {
    assert_eq!(next_speed_limit(25), 50);
    assert_eq!(next_speed_limit(50), 75);
    assert_eq!(next_speed_limit(75), 100);
    assert_eq!(next_speed_limit(100), 25);
    assert_eq!(next_speed_limit(33), 25);
}

#[test]
fn keypad_ticks() {
    let mut s = KeypadState::new();
    assert_eq!(s.speed_limit, 50);
    let ad = button::BTN_A | button::BTN_D;
    assert!(!s.led_on);
    s.tick(ad, true, 4);
    assert_eq!(s.speed_limit, 75);
    assert!(s.led_on);
    assert_eq!((s.frame, s.emotion_idx, s.tick_count), (1, 0, 1));
    s.tick(button::BTN_A, false, 4);
    assert_eq!(s.speed_limit, 75);
    assert!(!s.led_on);
    for _ in 2..30 {
        s.tick(0, true, 4);
    }
    assert_eq!(s.tick_count, 30);
    s.tick(0, true, 4);
    assert_eq!((s.emotion_idx, s.frame), (1, 0));
    assert!(s.led_on);
    s.tick(0, false, 4);
    assert!(!s.led_on);
}

#[test]
fn control_packets_are_numbered_in_order() {
    let (p, next) = build_control_packet(41, 300, -200, 1, 75);
    assert_eq!(p, ControlPacket::new(41, 300, -200, 1, 75));
    assert!(p.verify());
    assert_eq!(next, 42);
    let (q, after) = build_control_packet(u16::MAX, 0, 0, 0, 50);
    assert_eq!(q.seq, u16::MAX);
    assert_eq!(after, 0);
}
