use smart_car::radio::telemetry_from_decoded;
use smart_car::protocol::{ControlPacket, MAX_PAYLOAD};
use smart_car::radio::{accept_decoded, parse_payload, telemetry_from_ack, BlockingDelay, RadioError};

fn encode(p: &ControlPacket) -> Vec<u8> {
    let mut buf = [0u8; 32];
    let fields = (p.magic, p.seq, p.axis_x, p.axis_y, p.buttons, p.speed_limit, p.crc);
    let used = postcard::to_slice(&fields, &mut buf).unwrap();
    used.to_vec()
}

#[test]
fn parses_encoded_packet() {
    let p = ControlPacket::new(42, 300, -200, 1, 75);
    let bytes = encode(&p);
    assert_eq!(parse_payload(&bytes), Ok(p));
}

#[test]
fn rejects_bad_lengths() {
    assert_eq!(parse_payload(&[]), Err(RadioError::BadLen));
    let long = [0u8; MAX_PAYLOAD + 1];
    assert_eq!(parse_payload(&long), Err(RadioError::BadLen));
}

#[test]
fn rejects_undecodable() {
    assert_eq!(parse_payload(&[0xA5, 0x01]), Err(RadioError::Decode));
    assert_eq!(parse_payload(&[0xA5, 0xFF, 0xFF, 0xFF, 0xFF]), Err(RadioError::Decode));
}

#[test]
fn rejects_bad_crc_or_magic() {
    let mut p = ControlPacket::new(1, 0, 0, 0, 50);
    p.axis_x = 999;
    assert_eq!(parse_payload(&encode(&p)), Err(RadioError::BadPacket));
    let mut q = ControlPacket::new(1, 0, 0, 0, 50);
    q.magic = 0;
    assert_eq!(parse_payload(&encode(&q)), Err(RadioError::BadPacket));
}

#[test]
fn accept_decoded_outcomes() {
    let p = ControlPacket::new(9, -1, 1, 2, 3);
    let f = (p.magic, p.seq, p.axis_x, p.axis_y, p.buttons, p.speed_limit, p.crc);
    assert_eq!(accept_decoded(Some(f)), Ok(p));
    assert_eq!(accept_decoded(None), Err(RadioError::Decode));
    let g = (p.magic, p.seq, p.axis_x, p.axis_y, p.buttons, p.speed_limit, p.crc ^ 0x8000);
    assert_eq!(accept_decoded(Some(g)), Err(RadioError::BadPacket));
}

#[test]
fn reads_telemetry_from_ack() {
    let mut buf = [0u8; 32];
    let used = postcard::to_slice(&(3700u16, 513u16, 0b011u8), &mut buf).unwrap();
    let t = telemetry_from_ack(used).unwrap();
    assert_eq!((t.battery_mv, t.last_seq, t.status), (3700, 513, 3));
    assert!(telemetry_from_ack(&[]).is_none());
    assert!(telemetry_from_ack(&[0xFF, 0xFF, 0xFF, 0xFF]).is_none());
}

#[test]
fn delay_cycles_at_125_mhz() {
    assert_eq!(BlockingDelay::cycles_for_ns(1000), 125);
    assert_eq!(BlockingDelay::cycles_for_ns(7), 0);
    assert_eq!(BlockingDelay::cycles_for_ns(u32::MAX), 536_870_911);
}

#[test]
fn telemetry_from_decoded_fields() {
    let t = telemetry_from_decoded(Some((0, 7, 4))).unwrap();
    assert_eq!((t.battery_mv, t.last_seq, t.status), (0, 7, 4));
    assert!(telemetry_from_decoded(None).is_none());
}
