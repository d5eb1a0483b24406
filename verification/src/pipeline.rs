use vstd::prelude::*;
use crate::model::{AdjustError, Config, Model, Perceptual, Rgb8, HUE_MOD};
use crate::hex::{format_hex_color, parse_hex_color, spec_format_hex, spec_parse_hex};
use crate::numeral::{dec_to_fixed, parse_numeral};
use crate::adjust::{
    apply_adjustment, lemma_clamp_within_bounds, lemma_norm_hue_range, norm_hue, resolve_bounds,
    spec_apply, spec_in_bounds, spec_resolve,
};
use crate::transform::{
    okhsl_of, okhsl_to_srgb, oklch_of, oklch_to_srgb, srgb_of_okhsl, srgb_of_oklch, srgb_to_okhsl,
    srgb_to_oklch,
};

verus! {

/// The perceptual color a parsed sRGB color converts to, its hue reduced
/// into one turn.
pub open spec fn spec_forward(m: Model, c: Rgb8) -> Perceptual {
    match m {
        Model::HueSatLight => {
            let t = okhsl_of(c.red, c.green, c.blue);
            Perceptual {
                hue: norm_hue(dec_to_fixed(t.0)) as i64,
                radial: dec_to_fixed(t.1) as i64,
                light: dec_to_fixed(t.2) as i64,
            }
        },
        Model::LightChromaHue => {
            let t = oklch_of(c.red, c.green, c.blue);
            Perceptual {
                hue: norm_hue(dec_to_fixed(t.2)) as i64,
                radial: dec_to_fixed(t.1) as i64,
                light: dec_to_fixed(t.0) as i64,
            }
        },
    }
}

/// The sRGB color a resolved perceptual color converts back to.
pub open spec fn spec_inverse(m: Model, p: Perceptual) -> Rgb8 {
    match m {
        Model::HueSatLight => {
            let t = srgb_of_okhsl(p.hue as u64, p.radial as u64, p.light as u64);
            Rgb8 { red: t.0, green: t.1, blue: t.2 }
        },
        Model::LightChromaHue => {
            let t = srgb_of_oklch(p.light as u64, p.radial as u64, p.hue as u64);
            Rgb8 { red: t.0, green: t.1, blue: t.2 }
        },
    }
}

/// The whole per-color transform: forward, adjust, resolve, inverse.
pub open spec fn spec_adjust_color(cfg: Config, c: Rgb8) -> Result<Rgb8, AdjustError> {
    let q = spec_apply(cfg, spec_forward(cfg.model, c));
    match spec_resolve(cfg, q) {
        Ok(r) => Ok(spec_inverse(cfg.model, r)),
        Err(e) => Err(e),
    }
}

/// One line of text, parsed, adjusted and rendered back; the `#` marker
/// is re-added exactly when the input carried one.
pub open spec fn spec_adjust_line(cfg: Config, s: Seq<char>) -> Result<Seq<char>, AdjustError> {
    match spec_parse_hex(s) {
        Option::None => Err(AdjustError::Parse),
        Option::Some(ch) => match spec_adjust_color(cfg, ch.0) {
            Ok(c2) => Ok(spec_format_hex(c2, ch.1)),
            Err(e) => Err(e),
        },
    }
}

/// Converts a color into the configured perceptual model.
pub fn forward_color(m: &Model, c: Rgb8) -> (p: Perceptual)
    ensures
        p == spec_forward(*m, c),
        p.bounded(),
        p.hue < HUE_MOD,
{
    match m {
        Model::HueSatLight => {
            let t = srgb_to_okhsl(c);
            let hue_raw = parse_numeral(t.0.as_str());
            let radial = parse_numeral(t.1.as_str());
            let light = parse_numeral(t.2.as_str());
            let hue = crate::adjust::normalize_hue(hue_raw);
            Perceptual { hue, radial, light }
        },
        Model::LightChromaHue => {
            let t = srgb_to_oklch(c);
            let light = parse_numeral(t.0.as_str());
            let radial = parse_numeral(t.1.as_str());
            let hue_raw = parse_numeral(t.2.as_str());
            let hue = crate::adjust::normalize_hue(hue_raw);
            Perceptual { hue, radial, light }
        },
    }
}

/// Converts a resolved perceptual color back to sRGB.
pub fn inverse_color(m: &Model, p: Perceptual) -> (c: Rgb8)
    requires
        0 <= p.hue,
        0 <= p.radial,
        0 <= p.light,
    ensures
        c == spec_inverse(*m, p),
{
    match m {
        Model::HueSatLight => okhsl_to_srgb(p.hue as u64, p.radial as u64, p.light as u64),
        Model::LightChromaHue => oklch_to_srgb(p.light as u64, p.radial as u64, p.hue as u64),
    }
}

/// Adjusts one parsed color: exactly the five steps of `spec_adjust_color`.
pub fn adjust_color(cfg: &Config, c: Rgb8) -> (r: Result<Rgb8, AdjustError>)
    requires
        cfg.valid(),
    ensures
        r == spec_adjust_color(*cfg, c),
{
    let p = forward_color(&cfg.model, c);
    let q = apply_adjustment(cfg, p);
    proof {
        lemma_norm_hue_range(crate::adjust::spec_adjusted(*cfg, p.hue as int));
        assert(0 <= q.hue < HUE_MOD);
    }
    match resolve_bounds(cfg, q) {
        Ok(res) => Ok(inverse_color(&cfg.model, res)),
        Err(e) => Err(e),
    }
}

/// The text result seen as a sequence of characters.
pub open spec fn view_line_result(r: Result<String, AdjustError>) -> Result<
    Seq<char>,
    AdjustError,
> {
    match r {
        Ok(s) => Ok(s@),
        Err(e) => Err(e),
    }
}

/// Adjusts one line of text: exactly `spec_adjust_line` of its characters.
pub fn adjust_line(cfg: &Config, input: &str) -> (r: Result<String, AdjustError>)
    requires
        cfg.valid(),
    ensures
        view_line_result(r) == spec_adjust_line(*cfg, input@),
{
    match parse_hex_color(input) {
        Option::None => Err(AdjustError::Parse),
        Option::Some((col, hash)) => match adjust_color(cfg, col) {
            Ok(c2) => Ok(format_hex_color(c2, hash)),
            Err(e) => Err(e),
        },
    }
}

/// Adjusts lines in order, stopping at the first failure: on success one
/// output per line, otherwise the error of the earliest failing line,
/// every line before it having succeeded.
pub fn process_lines(cfg: &Config, lines: &Vec<String>) -> (r: Result<Vec<String>, AdjustError>)
    requires
        cfg.valid(),
    ensures
        match r {
            Ok(outs) => outs.len() == lines.len() && forall|j: int|
                0 <= j < lines.len() ==> #[trigger] spec_adjust_line(*cfg, lines[j]@)
                    == Ok::<Seq<char>, AdjustError>(outs[j]@),
            Err(e) => exists|k: int|
                0 <= k < lines.len() && (#[trigger] spec_adjust_line(*cfg, lines[k]@))
                    == Err::<Seq<char>, AdjustError>(e) && (forall|j: int|
                    0 <= j < k ==> (#[trigger] spec_adjust_line(*cfg, lines[j]@)) is Ok),
        },
{
    let mut outs: Vec<String> = Vec::new();
    let mut i: usize = 0;
    while i < lines.len()
        invariant
            cfg.valid(),
            i <= lines.len(),
            outs.len() == i,
            forall|j: int|
                0 <= j < i ==> #[trigger] spec_adjust_line(*cfg, lines[j]@)
                    == Ok::<Seq<char>, AdjustError>(outs[j]@),
        decreases lines.len() - i,
    {
        match adjust_line(cfg, lines[i].as_str()) {
            Ok(out) => {
                outs.push(out);
            },
            Err(e) => {
                return Err(e);
            },
        }
        i += 1;
    }
    Ok(outs)
}

/// One line's output depends on that line alone: two runs that both reach
/// it agree on it, whatever their other lines hold.
pub proof fn lemma_line_independent(cfg: Config, a: Seq<Seq<char>>, b: Seq<Seq<char>>, i: int)
    requires
        0 <= i < a.len(),
        0 <= i < b.len(),
        a[i] == b[i],
    ensures
        spec_adjust_line(cfg, a[i]) == spec_adjust_line(cfg, b[i]),
{
}

/// A successful output line carries the `#` marker exactly when its input
/// did.
pub proof fn lemma_prefix_preserved(cfg: Config, s: Seq<char>, out: Seq<char>)
    requires
        spec_adjust_line(cfg, s) == Ok::<Seq<char>, AdjustError>(out),
    ensures
        out.len() > 0,
        (out[0] == '#') <==> (s.len() > 0 && s[0] == '#'),
{
    let ch = spec_parse_hex(s)->0;
    let c2 = spec_adjust_color(cfg, ch.0)->Ok_0;
    assert(out == spec_format_hex(c2, ch.1));
    assert(ch.1 == (s.len() > 0 && s[0] == '#'));
    if ch.1 {
        assert(out[0] == '#');
    } else {
        assert(out[0] == crate::hex::hex_char(c2.red as int / 16));
    }
}

/// Under the default clamping policy no color is ever rejected, and the
/// resolved color the output is rendered from lies in canonical range,
/// its hue reduced into one turn.
pub proof fn lemma_clamp_never_fails(cfg: Config, c: Rgb8)
    requires
        cfg.valid(),
        cfg.policy is Clamp,
    ensures
        spec_adjust_color(cfg, c) is Ok,
        spec_in_bounds(
            cfg.model,
            spec_resolve(cfg, spec_apply(cfg, spec_forward(cfg.model, c)))->Ok_0,
        ),
        0 <= spec_resolve(cfg, spec_apply(cfg, spec_forward(cfg.model, c)))->Ok_0.hue < HUE_MOD,
{
    let p = spec_forward(cfg.model, c);
    let q = spec_apply(cfg, p);
    lemma_clamp_within_bounds(cfg.model, q);
    lemma_norm_hue_range(crate::adjust::spec_adjusted(cfg, p.hue as int));
    match cfg.model {
        Model::HueSatLight => {
            lemma_norm_hue_range(dec_to_fixed(okhsl_of(c.red, c.green, c.blue).0));
        },
        Model::LightChromaHue => {
            lemma_norm_hue_range(dec_to_fixed(oklch_of(c.red, c.green, c.blue).2));
        },
    }
}

} // verus!
