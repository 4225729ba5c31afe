use smart_car::display::status_text;

fn text(v: &[char]) -> String {
    v.iter().collect()
}

#[test]
fn status_lines() {
    let t = status_text(300, -1000, 75, true, 12);
    assert_eq!(text(&t.joystick), "X: +300 Y:-1000");
    assert_eq!(text(&t.speed), "SPD: 75%");
    assert_eq!(text(&t.link), "TX: OK");
    assert_eq!(text(&t.count), "CNT: 12");
    let u = status_text(0, i16::MIN, 0, false, u32::MAX);
    assert_eq!(text(&u.joystick), format!("X:{:+5} Y:{:+5}", 0, i16::MIN));
    assert_eq!(text(&u.link), "TX: FAIL");
    assert_eq!(text(&u.count), "CNT: 4294967295");
    assert_eq!(text(&u.speed), "SPD: 0%");
}
