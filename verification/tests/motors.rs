use smart_car::car_config::PWM_TOP;
use smart_car::motors::{pin_levels, scale, Dir, Motors, SideOutput};

#[test]
fn scale_maps_speed_and_limit_to_duty() {
    assert_eq!(scale(1000, 100), (PWM_TOP, Dir::Forward));
    assert_eq!(scale(-500, 50), (8191, Dir::Reverse));
    assert_eq!(scale(0, 100), (0, Dir::Stop));
    assert_eq!(scale(300, 0), (0, Dir::Forward));
    assert_eq!(scale(i16::MIN, 100), (PWM_TOP, Dir::Reverse));
    assert_eq!(scale(1, 100), (32, Dir::Forward));
}

#[test]
fn direction_pins_never_both_high() {
    assert_eq!(pin_levels(Dir::Stop), (false, false));
    assert_eq!(pin_levels(Dir::Forward), (true, false));
    assert_eq!(pin_levels(Dir::Reverse), (false, true));
}

#[test]
fn motors_drive_and_stop() {
    let mut m = Motors::new();
    let stopped = SideOutput { duty: 0, dir: Dir::Stop };
    assert_eq!((m.left, m.right), (stopped, stopped));
    m.drive(1000, -300, 50);
    assert_eq!(m.left, SideOutput { duty: 16383, dir: Dir::Forward });
    assert_eq!(m.right, SideOutput { duty: 4915, dir: Dir::Reverse });
    m.drive(1000, 1000, 200);
    assert_eq!(m.left.duty, PWM_TOP);
    m.stop();
    assert_eq!((m.left, m.right), (stopped, stopped));
}
