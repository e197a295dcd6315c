use ambient_lights::{set_color_command, Light, Transition};

fn dist(a: u8, b: u8) -> u8 {
    if a >= b { a - b } else { b - a }
}

#[test]
fn new_light_is_dark() {
    assert_eq!(Light::new().current_color, (0, 0, 0));
}

#[test]
fn set_color_jumps() {
    let mut l = Light::new();
    let f = l.set_color(255, 0, 0);
    assert_eq!(l.current_color, (255, 0, 0));
    assert_eq!(f, set_color_command(255, 0, 0));
}

#[test]
fn keep_alive_leaves_color() {
    let mut l = Light::new();
    l.set_color(1, 2, 3);
    let f = l.keep_alive();
    assert_eq!(f[0], 0xAA);
    assert_eq!(l.current_color, (1, 2, 3));
}

#[test]
fn smoothing_midpoint_example() {
    let mut l = Light::new();
    let f = l.set_color_smoothed(254, 0, 0, 3, Transition::Smooth);
    assert_eq!(l.current_color, (127, 0, 0));
    assert_eq!(f, Some(set_color_command(127, 0, 0)));
    let f = l.set_color_smoothed(254, 0, 0, 3, Transition::Smooth);
    assert_eq!(l.current_color, (190, 0, 0));
    assert_eq!(f, Some(set_color_command(190, 0, 0)));
    let mut prev = 190u8;
    for _ in 0..20 {
        l.set_color_smoothed(254, 0, 0, 3, Transition::Smooth);
        assert!(l.current_color.0 >= prev);
        assert!(l.current_color.0 <= 254);
        prev = l.current_color.0;
    }
    assert!(254 - l.current_color.0 < 3);
}

#[test]
fn smoothing_converged_is_silent() {
    let mut l = Light { current_color: (100, 50, 200) };
    for _ in 0..5 {
        assert_eq!(l.set_color_smoothed(102, 48, 201, 3, Transition::Smooth), None);
        assert_eq!(l.current_color, (100, 50, 200));
    }
}

#[test]
fn smoothing_checks_red_channel() {
    let mut l = Light::new();
    let f = l.set_color_smoothed(200, 0, 0, 3, Transition::Smooth);
    assert!(f.is_some());
    assert_eq!(l.current_color, (100, 0, 0));
}

#[test]
fn smoothing_rounds_toward_zero() {
    let mut l = Light { current_color: (9, 200, 0) };
    l.set_color_smoothed(0, 100, 255, 3, Transition::Smooth);
    assert_eq!(l.current_color, (4, 150, 127));
}

#[test]
fn smoothing_never_overshoots() {
    let target = (254u8, 3u8, 200u8);
    let mut l = Light { current_color: (0, 255, 10) };
    for _ in 0..30 {
        let before = l.current_color;
        l.set_color_smoothed(target.0, target.1, target.2, 3, Transition::Smooth);
        let after = l.current_color;
        for (b, a, t) in [(before.0, after.0, target.0), (before.1, after.1, target.1), (before.2, after.2, target.2)] {
            assert!((b <= a && a <= t) || (t <= a && a <= b));
            assert!(dist(a, t) <= dist(b, t));
        }
    }
    assert!(dist(l.current_color.0, target.0) < 3);
    assert!(dist(l.current_color.1, target.1) < 3);
    assert!(dist(l.current_color.2, target.2) < 3);
}

#[test]
fn instant_transition_jumps_unless_converged() {
    let mut l = Light::new();
    let f = l.set_color_smoothed(10, 20, 30, 3, Transition::Instant);
    assert_eq!(l.current_color, (10, 20, 30));
    assert_eq!(f, Some(set_color_command(10, 20, 30)));
    assert_eq!(l.set_color_smoothed(11, 21, 31, 3, Transition::Instant), None);
}

#[test]
fn zero_sensitivity_always_sends() {
    let mut l = Light { current_color: (5, 5, 5) };
    let f = l.set_color_smoothed(5, 5, 5, 0, Transition::Smooth);
    assert_eq!(f, Some(set_color_command(5, 5, 5)));
    assert_eq!(l.current_color, (5, 5, 5));
}
