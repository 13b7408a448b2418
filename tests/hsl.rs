use colored_text::hsl::hsl_to_rgb;
use colored_text::{Colorize, ColorizeConfig};

fn no_terminal_check() -> bool {
    let mut config = ColorizeConfig::default();
    config.set_terminal_check(false);
    config.should_colorize(false, false)
}

/// Check that two truecolor sequences agree within 1 on every channel.
fn assert_rgb_approx_eq(actual: &str, expected: &str) {
    let extract_rgb = |s: &str| {
        let parts: Vec<&str> = s.split(';').collect();
        if parts.len() >= 5 {
            let r = parts[2].parse::<i32>().unwrap();
            let g = parts[3].parse::<i32>().unwrap();
            let b = parts[4].split('m').next().unwrap().parse::<i32>().unwrap();
            (r, g, b)
        } else {
            panic!("Invalid ANSI color sequence");
        }
    };

    let (r1, g1, b1) = extract_rgb(actual);
    let (r2, g2, b2) = extract_rgb(expected);

    assert!(
        (r1 - r2).abs() <= 1 && (g1 - g2).abs() <= 1 && (b1 - b2).abs() <= 1,
        "RGB values differ by more than 1: ({}, {}, {}) vs ({}, {}, {})",
        r1,
        g1,
        b1,
        r2,
        g2,
        b2
    );
}

#[test]
fn test_hsl_colors_comprehensive() {
    let on = no_terminal_check();
    let cases = [
        (0, 100, 50, 255u8, 0u8, 0u8),
        (60, 100, 50, 255, 255, 0),
        (90, 100, 50, 128, 255, 0),
        (120, 100, 50, 0, 255, 0),
        (150, 100, 50, 0, 255, 128),
        (180, 100, 50, 0, 255, 255),
        (210, 100, 50, 0, 128, 255),
        (240, 100, 50, 0, 0, 255),
        (300, 100, 50, 255, 0, 255),
        (330, 100, 50, 255, 0, 128),
        (360, 100, 50, 255, 0, 0),
    ];
    for (h, s, l, r, g, b) in cases {
        let actual = "test".hsl(h, s, l, on);
        let expected = "test".rgb(r, g, b, on);
        assert_rgb_approx_eq(&actual, &expected);
    }
}

#[test]
fn test_hsl_edge_cases() {
    let on = no_terminal_check();
    let assert_hsl_rgb = |h, s, l, r, g, b| {
        let actual = "test".hsl(h, s, l, on);
        let expected = "test".rgb(r, g, b, on);
        assert_rgb_approx_eq(&actual, &expected);
    };

    // Gray scale (0% saturation)
    assert_hsl_rgb(0, 0, 0, 0, 0, 0);
    assert_hsl_rgb(0, 0, 25, 64, 64, 64);
    assert_hsl_rgb(0, 0, 50, 128, 128, 128);
    assert_hsl_rgb(0, 0, 75, 191, 191, 191);
    assert_hsl_rgb(0, 0, 100, 255, 255, 255);

    // Saturation variations (red hue)
    assert_hsl_rgb(0, 25, 50, 159, 96, 96);
    assert_hsl_rgb(0, 50, 50, 191, 64, 64);
    assert_hsl_rgb(0, 75, 50, 223, 32, 32);

    // Lightness variations with full saturation
    assert_hsl_rgb(120, 100, 25, 0, 128, 0);
    assert_hsl_rgb(120, 100, 75, 128, 255, 128);
}

#[test]
fn test_hsl_background_colors() {
    let on = no_terminal_check();
    let actual = "test".on_hsl(0, 100, 50, on);
    let expected = "test".on_rgb(255, 0, 0, on);
    assert_rgb_approx_eq(&actual, &expected);

    let actual = "test".on_hsl(120, 100, 50, on);
    let expected = "test".on_rgb(0, 255, 0, on);
    assert_rgb_approx_eq(&actual, &expected);

    let actual = "test".on_hsl(240, 100, 50, on);
    let expected = "test".on_rgb(0, 0, 255, on);
    assert_rgb_approx_eq(&actual, &expected);
}

#[test]
#[should_panic(expected = "Invalid ANSI color sequence")]
fn test_assert_rgb_approx_eq_invalid_sequence() {
    assert_rgb_approx_eq("invalid", "also invalid");
}

#[test]
#[should_panic(expected = "RGB values differ by more than 1: (255, 0, 0) vs (252, 0, 0)")]
fn test_assert_rgb_approx_eq_large_diff() {
    let on = no_terminal_check();
    let color1 = "test".rgb(255, 0, 0, on);
    let color2 = "test".rgb(252, 0, 0, on);
    assert_rgb_approx_eq(&color1, &color2);
}

#[test]
fn primaries_and_grays_are_within_one() {
    let on = no_terminal_check();
    for (h, s, l, r, g, b) in [
        (0, 100, 50, 255u8, 0u8, 0u8),
        (120, 100, 50, 0, 255, 0),
        (240, 100, 50, 0, 0, 255),
        (0, 0, 50, 128, 128, 128),
        (0, 0, 100, 255, 255, 255),
        (0, 0, 0, 0, 0, 0),
    ] {
        assert_rgb_approx_eq(&"x".hsl(h, s, l, on), &"x".rgb(r, g, b, on));
    }
}

#[test]
fn hsl_exact_values_truncate() {
    assert_eq!(hsl_to_rgb(0, 100, 50), (255, 0, 0));
    assert_eq!(hsl_to_rgb(120, 100, 50), (0, 255, 0));
    assert_eq!(hsl_to_rgb(240, 100, 50), (0, 0, 255));
    assert_eq!(hsl_to_rgb(0, 0, 50), (127, 127, 127));
    assert_eq!(hsl_to_rgb(0, 0, 100), (255, 255, 255));
    assert_eq!(hsl_to_rgb(0, 0, 0), (0, 0, 0));
    assert_eq!(hsl_to_rgb(90, 100, 50), (127, 255, 0));
    assert_eq!(hsl_to_rgb(210, 100, 50), (0, 127, 255));
    assert_eq!(hsl_to_rgb(0, 25, 50), (159, 95, 95));
    assert_eq!(hsl_to_rgb(360, 100, 50), (255, 0, 0));
}

#[test]
fn hsl_out_of_range_inputs_follow_the_formula() {
    // Negative hue: segment 0, negative secondary component held at 0.
    assert_eq!(hsl_to_rgb(-30, 100, 50), (255, 0, 0));
    // Hue past a full turn: segments past 4 take the order of segment 5.
    assert_eq!(hsl_to_rgb(400, 100, 50), (255, 0, 170));
    // Saturation over 100: channels held to 0..=255.
    assert_eq!(hsl_to_rgb(0, 200, 50), (255, 0, 0));
    // Lightness over 100.
    assert_eq!(hsl_to_rgb(0, 0, 150), (255, 255, 255));
    // The extremes of the input type do not overflow.
    assert_eq!(hsl_to_rgb(i32::MIN, i32::MAX, i32::MIN), (0, 255, 255));
    assert_eq!(hsl_to_rgb(i32::MAX, 50, 50), (191, 63, 78));
}

#[test]
fn hsl_suppressed_and_background() {
    assert_eq!("test".hsl(0, 100, 50, false), "test");
    let on = no_terminal_check();
    assert_eq!("test".on_hsl(0, 0, 100, on), "\x1b[48;2;255;255;255mtest\x1b[0m");
    assert_eq!("test".hsl(240, 100, 50, on), "\x1b[38;2;0;0;255mtest\x1b[0m");
}
