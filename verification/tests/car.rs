use smart_car::radio::RadioError;
use smart_car::car::{failsafe_expired, CarState};
use smart_car::motors::{Dir, SideOutput};
use smart_car::protocol::ControlPacket;

const STOPPED: SideOutput = SideOutput { duty: 0, dir: Dir::Stop };

#[test]
fn starts_stopped_and_failsafe_active() {
    let mut s = CarState::new();
    assert_eq!((s.last_pkt_ms, s.led_on), (0, false));
    s.tick(None, 5);
    assert_eq!((s.motors.left, s.motors.right, s.led_on), (STOPPED, STOPPED, false));
}

#[test]
fn packet_drives_then_failsafe_stops_after_timeout() {
    let mut s = CarState::new();
    let p = ControlPacket::new(1, 0, 1000, 0, 100);
    s.tick(Some(p), 1000);
    assert_eq!(s.last_pkt_ms, 1000);
    assert!(s.led_on);
    assert_eq!(s.motors.left, SideOutput { duty: 32767, dir: Dir::Forward });
    assert_eq!(s.motors.right, SideOutput { duty: 32767, dir: Dir::Forward });
    s.tick(None, 1300);
    assert!(s.led_on);
    assert_eq!(s.motors.left.duty, 32767);
    s.tick(None, 1301);
    assert!(!s.led_on);
    assert_eq!((s.motors.left, s.motors.right), (STOPPED, STOPPED));
    assert_eq!(s.last_pkt_ms, 1000);
    s.tick(Some(ControlPacket::new(2, 1000, 0, 0, 50)), 1400);
    assert!(s.led_on);
    assert_eq!(s.motors.left, SideOutput { duty: 16383, dir: Dir::Forward });
    assert_eq!(s.motors.right, SideOutput { duty: 16383, dir: Dir::Reverse });
}

#[test]
fn failsafe_timing() {
    assert!(failsafe_expired(0, 0));
    assert!(failsafe_expired(0, 100));
    assert!(!failsafe_expired(100, 400));
    assert!(failsafe_expired(100, 401));
    assert!(!failsafe_expired(u64::MAX - 10, 5));
    assert!(failsafe_expired(u64::MAX - 10, 300));
}

#[test]
fn rejected_payload_counts_as_silence() {
    let mut s = CarState::new();
    let p = ControlPacket::new(1, 0, 1000, 0, 100);
    s.tick_received(Some(Ok(p)), 1000);
    assert!(s.led_on);
    s.tick_received(Some(Err(RadioError::BadPacket)), 1200);
    assert_eq!(s.last_pkt_ms, 1000);
    assert_eq!(s.motors.left.duty, 32767);
    s.tick_received(Some(Err(RadioError::Decode)), 1301);
    assert!(!s.led_on);
    assert_eq!((s.motors.left, s.motors.right), (STOPPED, STOPPED));
    let mut bad = ControlPacket::new(2, 0, 500, 0, 100);
    bad.axis_x = 7;
    let r = smart_car::radio::accept_decoded(Some((bad.magic, bad.seq, bad.axis_x, bad.axis_y, bad.buttons, bad.speed_limit, bad.crc)));
    s.tick_received(Some(r), 1302);
    assert_eq!(s.last_pkt_ms, 1000);
    assert!(!s.led_on);
    s.tick_received(None, 1303);
    assert_eq!((s.motors.left, s.motors.right), (STOPPED, STOPPED));
}
