use smart_car::control::arcade_mix;

#[test]
fn stopped() {
    assert_eq!(arcade_mix(0, 0), (0, 0));
}

#[test]
fn full_forward() {
    assert_eq!(arcade_mix(0, 1000), (1000, 1000));
}

#[test]
fn spin_right() {
    assert_eq!(arcade_mix(1000, 0), (1000, -1000));
}

#[test]
fn spin_left() {
    assert_eq!(arcade_mix(-1000, 0), (-1000, 1000));
}

#[test]
fn full_reverse() {
    assert_eq!(arcade_mix(0, -1000), (-1000, -1000));
}

#[test]
fn forward_right_arc_is_clamped() {
    assert_eq!(arcade_mix(500, 800), (1000, 300));
}

#[test]
fn extreme_inputs_stay_in_range() {
    assert_eq!(arcade_mix(i16::MAX, i16::MAX), (1000, 0));
    assert_eq!(arcade_mix(i16::MIN, i16::MAX), (-1, 1000));
}

#[test]
fn mirrored_stick_swaps_wheels() {
    let (l, r) = arcade_mix(300, 400);
    assert_eq!(arcade_mix(-300, 400), (r, l));
}
