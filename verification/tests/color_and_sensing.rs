use xmas_rattler::colorcontrol::{ColorControl, Rgb};
use xmas_rattler::hc_sr04::get_distance_as_inches;
use xmas_rattler::motion::{motion_change, MotionChange};

#[test]
fn starts_green_dimmed() {
    let led = ColorControl::new();
    // hsv2rgb(64, 255, 255) = (126, 255, 0); gamma: (35, 255, 0); brightness 10: x * 11 / 256.
    assert_eq!(led.frame(), Rgb { r: 1, g: 10, b: 0 });
}

#[test]
fn cycle_starts_at_red_and_steps() {
    let mut led = ColorControl::new();
    led.next();
    assert_eq!(led.frame(), Rgb { r: 10, g: 0, b: 0 });
    for _ in 0..42 {
        led.next();
    }
    // hue 42: hsv2rgb = (255, 252, 0); gamma = (255, 247, 0).
    assert_eq!(led.frame(), Rgb { r: 10, g: 10, b: 0 });
}

#[test]
fn cycle_repeats_every_256_steps() {
    let mut led = ColorControl::new();
    let mut first = Vec::new();
    for _ in 0..256 {
        led.next();
        first.push(led.frame());
    }
    for i in 0..256 {
        led.next();
        assert_eq!(led.frame(), first[i]);
    }
}

#[test]
fn echo_to_distance() {
    assert_eq!(get_distance_as_inches(0), 0);
    assert_eq!(get_distance_as_inches(147), 0);
    assert_eq!(get_distance_as_inches(148), 1);
    assert_eq!(get_distance_as_inches(580), 3);
    assert_eq!(get_distance_as_inches(1480), 10);
    assert_eq!(get_distance_as_inches(148 * 255 + 147), 255);
    assert_eq!(get_distance_as_inches(148 * 300), 44);
}

#[test]
fn motion_changes() {
    assert_eq!(motion_change(false, true), MotionChange::Started);
    assert_eq!(motion_change(true, true), MotionChange::Continuing);
    assert_eq!(motion_change(true, false), MotionChange::Stopped);
    assert_eq!(motion_change(false, false), MotionChange::Idle);
}
