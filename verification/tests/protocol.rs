use smart_car::crc::crc16_ccitt_false;
use smart_car::protocol::button;
use smart_car::protocol::{ControlPacket, MAGIC};

#[test]
fn crc_roundtrip() {
    let p = ControlPacket::new(42, 300, -200, button::BTN_A, 75);
    assert!(p.verify());
}

#[test]
fn detects_corruption() {
    let mut p = ControlPacket::new(1, 0, 0, 0, 50);
    p.axis_x = 999;
    assert!(!p.verify());
}

#[test]
fn crc16_check_value() {
    assert_eq!(crc16_ccitt_false(b"123456789"), 0x29B1);
    assert_eq!(crc16_ccitt_false(&[]), 0xFFFF);
}

#[test]
fn new_fills_magic_and_crc_over_fields() {
    let p = ControlPacket::new(0x1234, -200, 300, 0x0102, 75);
    assert_eq!(p.magic, MAGIC);
    let bytes = [MAGIC, 0x34, 0x12, 0x38, 0xFF, 0x2C, 0x01, 0x02, 0x01, 75];
    assert_eq!(p.crc, crc16_ccitt_false(&bytes));
}

#[test]
fn new_clamps_axes_and_limit() {
    let p = ControlPacket::new(7, 5000, -5000, 0, 250);
    assert_eq!(p.axis_x, 1000);
    assert_eq!(p.axis_y, -1000);
    assert_eq!(p.speed_limit, 100);
    assert!(p.verify());
    let q = ControlPacket::new(7, i16::MIN, i16::MAX, 0, 100);
    assert_eq!((q.axis_x, q.axis_y, q.speed_limit), (-1000, 1000, 100));
}

#[test]
fn any_single_field_change_is_rejected() {
    let p = ControlPacket::new(42, 300, -200, button::BTN_A | button::BTN_D, 75);
    let mut q = p;
    q.magic = 0x5A;
    assert!(!q.verify());
    let mut q = p;
    q.seq = 43;
    assert!(!q.verify());
    let mut q = p;
    q.axis_y = -201;
    assert!(!q.verify());
    let mut q = p;
    q.buttons = 0;
    assert!(!q.verify());
    let mut q = p;
    q.speed_limit = 74;
    assert!(!q.verify());
    let mut q = p;
    q.crc ^= 1;
    assert!(!q.verify());
}
