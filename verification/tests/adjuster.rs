use okadjust::adjust::apply_adjustment;
use okadjust::hex::{format_hex_color, parse_hex_color};
use okadjust::model::{
    Adjustment, AdjustError, Component, Config, Model, Perceptual, Policy, Rgb8, HUE_MOD, UNIT,
};
use okadjust::numeral::parse_numeral;
use okadjust::pipeline::{adjust_line, process_lines};

fn cfg(
    model: Model,
    component: Component,
    adjustment: Adjustment,
    value: i64,
    policy: Policy,
) -> Config {
    Config { model, component, adjustment, value, policy }
}

fn no_op() -> Config {
    cfg(Model::HueSatLight, Component::Saturation, Adjustment::Increase, 0, Policy::Reject)
}

fn channels(s: &str) -> (u8, u8, u8) {
    let (c, _) = parse_hex_color(s.trim_start_matches('#')).unwrap();
    (c.red, c.green, c.blue)
}

#[test]
fn parses_long_form_with_marker() {
    let (c, hash) = parse_hex_color("#1A2b3C").unwrap();
    assert_eq!((c.red, c.green, c.blue), (0x1a, 0x2b, 0x3c));
    assert!(hash);
}

#[test]
fn parses_short_form_without_marker() {
    let (c, hash) = parse_hex_color("abc").unwrap();
    assert_eq!((c.red, c.green, c.blue), (0xaa, 0xbb, 0xcc));
    assert!(!hash);
}

#[test]
fn rejects_malformed_text() {
    assert!(parse_hex_color("zzz").is_none());
    assert!(parse_hex_color("#12").is_none());
    assert!(parse_hex_color("").is_none());
    assert!(parse_hex_color("#").is_none());
    assert!(parse_hex_color("12345").is_none());
    assert!(parse_hex_color("+a+b+c").is_none());
}

#[test]
fn parse_errors_produce_no_output_line() {
    for bad in ["zzz", "#12", ""] {
        assert_eq!(adjust_line(&no_op(), bad), Err(AdjustError::Parse));
    }
}

#[test]
fn formats_lowercase_with_optional_marker() {
    let c = Rgb8 { red: 0xa1, green: 0x0f, blue: 0x00 };
    assert_eq!(format_hex_color(c, true), "#a10f00");
    assert_eq!(format_hex_color(c, false), "a10f00");
}

#[test]
fn numerals_read_as_fixed_point() {
    assert_eq!(parse_numeral("0.5"), 500_000_000);
    assert_eq!(parse_numeral("360"), 360_000_000_000);
    assert_eq!(parse_numeral("1.000000001"), 1_000_000_001);
    assert_eq!(parse_numeral("2.9999999995"), 2_999_999_999);
    assert_eq!(parse_numeral("007"), 7_000_000_000);
    assert_eq!(parse_numeral("5."), 5_000_000_000);
    assert_eq!(parse_numeral("-0"), 0);
    assert_eq!(parse_numeral("1e-7"), 0);
    assert_eq!(parse_numeral(""), 0);
    assert_eq!(parse_numeral("."), 0);
}

#[test]
fn prefix_is_preserved() {
    let with = adjust_line(&no_op(), "#ff0000").unwrap();
    let without = adjust_line(&no_op(), "ff0000").unwrap();
    assert!(with.starts_with('#'));
    assert!(!without.starts_with('#'));
    assert_eq!(with.trim_start_matches('#'), without);
}

#[test]
fn no_op_round_trips_red() {
    assert_eq!(adjust_line(&no_op(), "#ff0000").unwrap(), "#ff0000");
    assert_eq!(adjust_line(&no_op(), "ff0000").unwrap(), "ff0000");
}

#[test]
fn hue_wraps_above_full_turn() {
    let set10 = cfg(
        Model::HueSatLight,
        Component::Hue,
        Adjustment::Assign,
        10 * UNIT,
        Policy::Reject,
    );
    let set370 = cfg(
        Model::HueSatLight,
        Component::Hue,
        Adjustment::Assign,
        370 * UNIT,
        Policy::Reject,
    );
    assert_eq!(
        adjust_line(&set10, "#336699").unwrap(),
        adjust_line(&set370, "#336699").unwrap()
    );
}

#[test]
fn hue_decrease_wraps_below_zero() {
    let down10 = cfg(
        Model::HueSatLight,
        Component::Hue,
        Adjustment::Decrease,
        10 * UNIT,
        Policy::Reject,
    );
    let p = Perceptual { hue: 5 * UNIT, radial: UNIT / 2, light: UNIT / 2 };
    let q = apply_adjustment(&down10, p);
    assert_eq!(q.hue, 355 * UNIT);
    assert_eq!(q.radial, p.radial);
    assert_eq!(q.light, p.light);
    assert!(0 <= q.hue && q.hue < HUE_MOD);
}

#[test]
fn lightness_at_the_boundary_is_accepted() {
    let to_one = cfg(
        Model::HueSatLight,
        Component::Lightness,
        Adjustment::Assign,
        UNIT,
        Policy::Reject,
    );
    let out = adjust_line(&to_one, "#123456").unwrap();
    assert_eq!(out, "#ffffff");
}

#[test]
fn lightness_just_past_the_boundary_is_rejected() {
    let past_one = cfg(
        Model::HueSatLight,
        Component::Lightness,
        Adjustment::Assign,
        UNIT + 100_000,
        Policy::Reject,
    );
    assert_eq!(adjust_line(&past_one, "#123456"), Err(AdjustError::OutOfBounds));
}

#[test]
fn clamping_forces_components_into_range() {
    let way_up = cfg(
        Model::HueSatLight,
        Component::Lightness,
        Adjustment::Increase,
        10 * UNIT,
        Policy::Clamp,
    );
    assert_eq!(adjust_line(&way_up, "#808080").unwrap(), "#ffffff");
    let way_down = cfg(
        Model::HueSatLight,
        Component::Lightness,
        Adjustment::Decrease,
        10 * UNIT,
        Policy::Clamp,
    );
    assert_eq!(adjust_line(&way_down, "#808080").unwrap(), "#000000");
}

#[test]
fn increase_then_decrease_returns_close_to_start() {
    let up = cfg(
        Model::HueSatLight,
        Component::Lightness,
        Adjustment::Increase,
        UNIT / 20,
        Policy::Reject,
    );
    let down = cfg(
        Model::HueSatLight,
        Component::Lightness,
        Adjustment::Decrease,
        UNIT / 20,
        Policy::Reject,
    );
    let mid = adjust_line(&up, "#445566").unwrap();
    let back = adjust_line(&down, &mid).unwrap();
    let (r0, g0, b0) = channels("#445566");
    let (r1, g1, b1) = channels(&back);
    assert!(r0.abs_diff(r1) <= 1, "{back}");
    assert!(g0.abs_diff(g1) <= 1, "{back}");
    assert!(b0.abs_diff(b1) <= 1, "{back}");
}

#[test]
fn zero_saturation_gives_gray() {
    let desat = cfg(
        Model::HueSatLight,
        Component::Saturation,
        Adjustment::Assign,
        0,
        Policy::Reject,
    );
    let (r, g, b) = channels(&adjust_line(&desat, "#ff0000").unwrap());
    assert_eq!(r, g);
    assert_eq!(g, b);
    assert_ne!((r, g, b), (0xff, 0x00, 0x00));
}

#[test]
fn setting_hue_turns_red_green() {
    let to_green = cfg(
        Model::HueSatLight,
        Component::Hue,
        Adjustment::Assign,
        142 * UNIT,
        Policy::Reject,
    );
    let (r, g, _) = channels(&adjust_line(&to_green, "#ff0000").unwrap());
    assert!(g > r);
}

#[test]
fn chroma_model_accepts_large_chroma() {
    let big_chroma = cfg(
        Model::LightChromaHue,
        Component::Chroma,
        Adjustment::Assign,
        5 * UNIT,
        Policy::Reject,
    );
    assert!(adjust_line(&big_chroma, "#336699").is_ok());
}

#[test]
fn zero_chroma_gives_gray() {
    let flat = cfg(
        Model::LightChromaHue,
        Component::Chroma,
        Adjustment::Assign,
        0,
        Policy::Reject,
    );
    let (r, g, b) = channels(&adjust_line(&flat, "#ff0000").unwrap());
    assert_eq!(r, g);
    assert_eq!(g, b);
}

#[test]
fn chroma_model_lightness_clamps_to_white() {
    let way_up = cfg(
        Model::LightChromaHue,
        Component::Lightness,
        Adjustment::Increase,
        10 * UNIT,
        Policy::Clamp,
    );
    assert_eq!(adjust_line(&way_up, "#808080").unwrap(), "#ffffff");
}

#[test]
fn lines_are_processed_independently() {
    let c = no_op();
    let lines = vec!["#ff0000".to_string(), "00ff00".to_string(), "#0000ff".to_string()];
    let outs = process_lines(&c, &lines).unwrap();
    assert_eq!(outs.len(), 3);
    for (line, out) in lines.iter().zip(outs.iter()) {
        assert_eq!(adjust_line(&c, line).unwrap(), *out);
    }
    let shuffled = vec!["zzz".to_string(), "00ff00".to_string()];
    assert_eq!(adjust_line(&c, &shuffled[1]).unwrap(), outs[1]);
}

#[test]
fn first_failure_aborts_the_run() {
    let c = no_op();
    let lines = vec!["#ff0000".to_string(), "zzz".to_string(), "#0000ff".to_string()];
    assert_eq!(process_lines(&c, &lines), Err(AdjustError::Parse));
    let reject = cfg(
        Model::HueSatLight,
        Component::Lightness,
        Adjustment::Increase,
        UNIT,
        Policy::Reject,
    );
    let lines2 = vec!["#808080".to_string(), "#010101".to_string()];
    assert_eq!(process_lines(&reject, &lines2), Err(AdjustError::OutOfBounds));
}

#[test]
fn error_messages_name_the_failure() {
    assert_eq!(AdjustError::Parse.message(), "failed to parse input into an sRGB color");
    assert_eq!(AdjustError::OutOfBounds.message(), "value out of bounds");
}

#[test]
fn negative_hue_assignment_wraps() {
    let set_minus10 = cfg(
        Model::HueSatLight,
        Component::Hue,
        Adjustment::Assign,
        -10 * UNIT,
        Policy::Reject,
    );
    let set_350 = cfg(
        Model::HueSatLight,
        Component::Hue,
        Adjustment::Assign,
        350 * UNIT,
        Policy::Reject,
    );
    assert_eq!(
        adjust_line(&set_minus10, "#336699").unwrap(),
        adjust_line(&set_350, "#336699").unwrap()
    );
}

#[test]
fn chroma_model_hue_wraps_too() {
    let set10 = cfg(
        Model::LightChromaHue,
        Component::Hue,
        Adjustment::Assign,
        10 * UNIT,
        Policy::Reject,
    );
    let set370 = cfg(
        Model::LightChromaHue,
        Component::Hue,
        Adjustment::Assign,
        370 * UNIT,
        Policy::Reject,
    );
    let out = adjust_line(&set10, "#ff0000").unwrap();
    assert_eq!(out, adjust_line(&set370, "#ff0000").unwrap());
    assert_ne!(out, "#ff0000");
}

#[test]
fn extreme_colors_survive_a_no_op() {
    assert_eq!(adjust_line(&no_op(), "#000000").unwrap(), "#000000");
    assert_eq!(adjust_line(&no_op(), "#ffffff").unwrap(), "#ffffff");
    assert_eq!(adjust_line(&no_op(), "000").unwrap(), "000000");
}

#[test]
fn oversized_numerals_are_capped() {
    assert_eq!(parse_numeral("99999999999"), 1_000_000_000_000_000_000);
    assert_eq!(parse_numeral("999999999.999999999"), 999_999_999_999_999_999);
}
