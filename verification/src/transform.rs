use vstd::prelude::*;
use palette::IntoColor;
use crate::model::{Rgb8, HUE_MOD, UNIT};
use crate::numeral::dec_to_fixed;

verus! {

/// Names the hue, saturation and lightness numerals that palette's
/// sRGB-to-Okhsl conversion yields for a color.
pub uninterp spec fn okhsl_of(r: u8, g: u8, b: u8) -> (Seq<char>, Seq<char>, Seq<char>);

/// Names the channels that palette's Okhsl-to-sRGB conversion yields for
/// fixed-point hue, saturation and lightness.
pub uninterp spec fn srgb_of_okhsl(h: u64, s: u64, l: u64) -> (u8, u8, u8);

/// Names the lightness, chroma and hue numerals that palette's
/// sRGB-to-Oklch conversion yields for a color.
pub uninterp spec fn oklch_of(r: u8, g: u8, b: u8) -> (Seq<char>, Seq<char>, Seq<char>);

/// Names the channels that palette's Oklch-to-sRGB conversion yields for
/// fixed-point lightness, chroma and hue.
pub uninterp spec fn srgb_of_oklch(l: u64, c: u64, h: u64) -> (u8, u8, u8);

/// Relies on palette's clamping conversion from `Srgb<f32>` to `Okhsl`,
/// and on the standard library printing an `f32` as a plain decimal
/// numeral that reads back as the same value: the conversion reduces hue
/// below one turn and clamps saturation and lightness into the unit
/// interval, so the numerals stay within those ranges as fixed-point.
#[verifier::external_body]
pub(crate) fn srgb_to_okhsl(col: Rgb8) -> (res: (String, String, String))
    ensures
        (res.0@, res.1@, res.2@) == okhsl_of(col.red, col.green, col.blue),
        dec_to_fixed(res.0@) <= HUE_MOD,
        dec_to_fixed(res.1@) <= UNIT,
        dec_to_fixed(res.2@) <= UNIT,
{
    let rgb: palette::Srgb<u8> = palette::Srgb::new(col.red, col.green, col.blue);
    let c: palette::Okhsl = rgb.into_format().into_color();
    (
        format!("{}", c.hue.into_positive_degrees()),
        format!("{}", c.saturation),
        format!("{}", c.lightness),
    )
}

/// Relies on palette's clamping conversion from `Okhsl` to `Srgb<u8>`,
/// handing it the fixed-point components (a billion steps per unit, hue
/// in degrees) as decimal numerals.
#[verifier::external_body]
pub(crate) fn okhsl_to_srgb(h: u64, s: u64, l: u64) -> (res: Rgb8)
    ensures
        (res.red, res.green, res.blue) == srgb_of_okhsl(h, s, l),
{
    let c: palette::Okhsl = palette::Okhsl::new_const(
        palette::OklabHue::new(
            format!("{}.{:09}", h / 1_000_000_000, h % 1_000_000_000).parse().unwrap_or_default(),
        ),
        format!("{}.{:09}", s / 1_000_000_000, s % 1_000_000_000).parse().unwrap_or_default(),
        format!("{}.{:09}", l / 1_000_000_000, l % 1_000_000_000).parse().unwrap_or_default(),
    );
    let rgbf: palette::Srgb = c.into_color();
    let rgb: palette::Srgb<u8> = rgbf.into_format();
    Rgb8 { red: rgb.red, green: rgb.green, blue: rgb.blue }
}

/// Relies on palette's clamping conversion from `Srgb<f32>` to `Oklch`,
/// and on the standard library printing an `f32` as a plain decimal
/// numeral that reads back as the same value: lightness is clamped into
/// the unit interval and hue reduced below one turn; chroma is only kept
/// nonnegative and has no upper bound.
#[verifier::external_body]
pub(crate) fn srgb_to_oklch(col: Rgb8) -> (res: (String, String, String))
    ensures
        (res.0@, res.1@, res.2@) == oklch_of(col.red, col.green, col.blue),
        dec_to_fixed(res.0@) <= UNIT,
        dec_to_fixed(res.2@) <= HUE_MOD,
{
    let rgb: palette::Srgb<u8> = palette::Srgb::new(col.red, col.green, col.blue);
    let c: palette::Oklch = rgb.into_format().into_color();
    (
        format!("{}", c.l),
        format!("{}", c.chroma),
        format!("{}", c.hue.into_positive_degrees()),
    )
}

/// Relies on palette's clamping conversion from `Oklch` to `Srgb<u8>`,
/// handing it the fixed-point components (a billion steps per unit, hue
/// in degrees) as decimal numerals.
#[verifier::external_body]
pub(crate) fn oklch_to_srgb(l: u64, c: u64, h: u64) -> (res: Rgb8)
    ensures
        (res.red, res.green, res.blue) == srgb_of_oklch(l, c, h),
{
    let col: palette::Oklch = palette::Oklch::new_const(
        format!("{}.{:09}", l / 1_000_000_000, l % 1_000_000_000).parse().unwrap_or_default(),
        format!("{}.{:09}", c / 1_000_000_000, c % 1_000_000_000).parse().unwrap_or_default(),
        palette::OklabHue::new(
            format!("{}.{:09}", h / 1_000_000_000, h % 1_000_000_000).parse().unwrap_or_default(),
        ),
    );
    let rgbf: palette::Srgb = col.into_color();
    let rgb: palette::Srgb<u8> = rgbf.into_format();
    Rgb8 { red: rgb.red, green: rgb.green, blue: rgb.blue }
}

} // verus!
