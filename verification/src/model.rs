use vstd::prelude::*;

verus! {

/// Fixed-point steps per unit: perceptual components are stored as integers,
/// in steps of one billionth of a unit (for hue, of a degree).
pub const UNIT: i64 = 1_000_000_000;

/// One full hue turn (360 degrees) in fixed-point steps.
pub const HUE_MOD: i64 = 360_000_000_000;

/// Largest fixed-point magnitude accepted for an adjustment value
/// (a multiple of `HUE_MOD`, so hue arithmetic can offset by it).
pub const VALUE_MAX: i64 = 3_600_000_000_000_000;

/// Ceiling on any component value read back from a forward transform.
pub const DEC_CAP: i64 = 1_000_000_000_000_000_000;

/// An 8-bit sRGB color.
#[derive(PartialEq, Eq, Structural, Clone, Copy, Debug)]
pub struct Rgb8 {
    pub red: u8,
    pub green: u8,
    pub blue: u8,
}

/// The perceptual model a run works in.
#[derive(PartialEq, Eq, Structural, Clone, Copy, Debug)]
pub enum Model {
    HueSatLight,
    LightChromaHue,
}

/// The component an adjustment targets. `Saturation` belongs to the
/// hue/saturation/lightness model, `Chroma` to lightness/chroma/hue.
#[derive(PartialEq, Eq, Structural, Clone, Copy, Debug)]
pub enum Component {
    Hue,
    Saturation,
    Lightness,
    Chroma,
}

/// How the configured value is combined with the current component.
#[derive(PartialEq, Eq, Structural, Clone, Copy, Debug)]
pub enum Adjustment {
    Assign,
    Increase,
    Decrease,
}

/// Whether out-of-range results are clamped or rejected.
#[derive(PartialEq, Eq, Structural, Clone, Copy, Debug)]
pub enum Policy {
    Clamp,
    Reject,
}

/// Why a line was not adjusted.
#[derive(PartialEq, Eq, Structural, Clone, Copy, Debug)]
pub enum AdjustError {
    Parse,
    OutOfBounds,
}

/// A full run configuration: fixed once per run, applied to every line.
#[derive(PartialEq, Eq, Structural, Clone, Copy, Debug)]
pub struct Config {
    pub model: Model,
    pub component: Component,
    pub adjustment: Adjustment,
    /// Fixed-point: `UNIT` steps stand for 1.0 (for hue, for one degree).
    pub value: i64,
    pub policy: Policy,
}

/// A perceptual color: hue plus a radial component (saturation or chroma,
/// depending on the model) and lightness, all fixed-point.
#[derive(PartialEq, Eq, Structural, Clone, Copy, Debug)]
pub struct Perceptual {
    pub hue: i64,
    pub radial: i64,
    pub light: i64,
}

pub open spec fn component_allowed(m: Model, c: Component) -> bool {
    match m {
        Model::HueSatLight => c != Component::Chroma,
        Model::LightChromaHue => c != Component::Saturation,
    }
}

impl Config {
    pub open spec fn valid(self) -> bool {
        &&& component_allowed(self.model, self.component)
        &&& -VALUE_MAX <= self.value <= VALUE_MAX
    }
}

impl Perceptual {
    /// Ranges that every color handed back by a forward transform lies in.
    pub open spec fn bounded(self) -> bool {
        &&& 0 <= self.hue <= HUE_MOD
        &&& 0 <= self.radial <= DEC_CAP
        &&& 0 <= self.light <= UNIT
    }
}

impl AdjustError {
    /// A short description of the failure, for the run's error report.
    pub fn message(&self) -> (r: &'static str)
        ensures
            *self is Parse ==> r@ == "failed to parse input into an sRGB color"@,
            *self is OutOfBounds ==> r@ == "value out of bounds"@,
    {
        match self {
            AdjustError::Parse => "failed to parse input into an sRGB color",
            AdjustError::OutOfBounds => "value out of bounds",
        }
    }
}

} // verus!
