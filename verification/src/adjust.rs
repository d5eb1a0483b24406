use vstd::prelude::*;
use vstd::arithmetic::div_mod::{
    lemma_fundamental_div_mod, lemma_mod_bound, lemma_mod_multiples_vanish, lemma_small_mod,
};
use crate::model::{
    Adjustment, AdjustError, Component, Config, Model, Perceptual, Policy, HUE_MOD, UNIT,
    VALUE_MAX,
};

verus! {

/// A hue angle reduced into one turn: the remainder by `HUE_MOD`,
/// nonnegative whatever the sign of the input.
pub open spec fn norm_hue(h: int) -> int {
    h % (HUE_MOD as int)
}

pub proof fn lemma_norm_hue_range(h: int)
    ensures
        0 <= norm_hue(h) < HUE_MOD,
{
    lemma_mod_bound(h, HUE_MOD as int);
}

/// Shifting a hue total by a whole turn does not change its reduction.
pub proof fn lemma_norm_hue_turn(h: int)
    ensures
        norm_hue(h + HUE_MOD) == norm_hue(h),
        norm_hue(h - HUE_MOD) == norm_hue(h),
{
    lemma_mod_multiples_vanish(1, h, HUE_MOD as int);
    lemma_mod_multiples_vanish(-1, h, HUE_MOD as int);
}

/// Reducing, shifting back, and reducing again lands on the original
/// reduced value.
pub proof fn lemma_norm_hue_cancel(h: int, v: int)
    requires
        0 <= h < HUE_MOD,
    ensures
        norm_hue(norm_hue(h + v) - v) == h,
{
    let m = HUE_MOD as int;
    let a = norm_hue(h + v);
    lemma_fundamental_div_mod(h + v, m);
    let q = (h + v) / m;
    assert(a - v == m * (-q) + h);
    lemma_mod_multiples_vanish(-q, h, m);
    lemma_small_mod(h as nat, m as nat);
}

pub open spec fn spec_adjusted(cfg: Config, cur: int) -> int {
    match cfg.adjustment {
        Adjustment::Assign => cfg.value as int,
        Adjustment::Increase => cur + cfg.value,
        Adjustment::Decrease => cur - cfg.value,
    }
}

/// Step four of a run: combine the configured value with the selected
/// component. Hue totals are reduced into one turn; the radial component
/// and lightness are left unbounded here.
pub open spec fn spec_apply(cfg: Config, p: Perceptual) -> Perceptual {
    match cfg.component {
        Component::Hue => Perceptual {
            hue: norm_hue(spec_adjusted(cfg, p.hue as int)) as i64,
            ..p
        },
        Component::Saturation => Perceptual { radial: spec_adjusted(cfg, p.radial as int) as i64, ..p },
        Component::Chroma => Perceptual { radial: spec_adjusted(cfg, p.radial as int) as i64, ..p },
        Component::Lightness => Perceptual { light: spec_adjusted(cfg, p.light as int) as i64, ..p },
    }
}

/// The canonical ranges: lightness within the unit interval, the radial
/// component nonnegative and, for saturation, at most one (chroma has no
/// upper bound). A reduced hue is always in range.
pub open spec fn spec_in_bounds(m: Model, p: Perceptual) -> bool {
    &&& 0 <= p.radial
    &&& (m is HueSatLight ==> p.radial <= UNIT)
    &&& 0 <= p.light <= UNIT
}

pub open spec fn clamp_to(v: int, lo: int, hi: int) -> int {
    if v < lo {
        lo
    } else if v > hi {
        hi
    } else {
        v
    }
}

/// Forces each out-of-range component to its nearest boundary; hue is
/// never clamped.
pub open spec fn spec_clamp(m: Model, p: Perceptual) -> Perceptual {
    Perceptual {
        hue: p.hue,
        radial: if m is HueSatLight {
            clamp_to(p.radial as int, 0, UNIT as int) as i64
        } else {
            if p.radial < 0 { 0 } else { p.radial }
        },
        light: clamp_to(p.light as int, 0, UNIT as int) as i64,
    }
}

/// Step five of a run: reject an out-of-range color, or clamp it.
pub open spec fn spec_resolve(cfg: Config, p: Perceptual) -> Result<Perceptual, AdjustError> {
    if cfg.policy is Reject {
        if spec_in_bounds(cfg.model, p) {
            Ok(p)
        } else {
            Err(AdjustError::OutOfBounds)
        }
    } else {
        Ok(spec_clamp(cfg.model, p))
    }
}

/// Reduces a hue total into `[0, HUE_MOD)` by offsetting with a whole
/// number of turns and taking the unsigned remainder.
pub fn normalize_hue(total: i64) -> (r: i64)
    requires
        -(VALUE_MAX as int) - (HUE_MOD as int) <= total <= (VALUE_MAX as int) + (HUE_MOD as int),
    ensures
        r == norm_hue(total as int),
        0 <= r < HUE_MOD,
{
    let shifted = total + 2 * VALUE_MAX;
    let r = (shifted as u64 % HUE_MOD as u64) as i64;
    proof {
        lemma_mod_multiples_vanish(20_000, total as int, HUE_MOD as int);
        assert(2 * (VALUE_MAX as int) == (HUE_MOD as int) * 20_000);
        lemma_mod_bound(shifted as int, HUE_MOD as int);
    }
    r
}

/// Applies the configured adjustment to the selected component.
pub fn apply_adjustment(cfg: &Config, p: Perceptual) -> (q: Perceptual)
    requires
        cfg.valid(),
        p.bounded(),
    ensures
        q == spec_apply(*cfg, p),
{
    match cfg.component {
        Component::Hue => {
            let total = match cfg.adjustment {
                Adjustment::Assign => cfg.value,
                Adjustment::Increase => p.hue + cfg.value,
                Adjustment::Decrease => p.hue - cfg.value,
            };
            Perceptual { hue: normalize_hue(total), radial: p.radial, light: p.light }
        },
        Component::Saturation | Component::Chroma => {
            let total = match cfg.adjustment {
                Adjustment::Assign => cfg.value,
                Adjustment::Increase => p.radial + cfg.value,
                Adjustment::Decrease => p.radial - cfg.value,
            };
            Perceptual { hue: p.hue, radial: total, light: p.light }
        },
        Component::Lightness => {
            let total = match cfg.adjustment {
                Adjustment::Assign => cfg.value,
                Adjustment::Increase => p.light + cfg.value,
                Adjustment::Decrease => p.light - cfg.value,
            };
            Perceptual { hue: p.hue, radial: p.radial, light: total }
        },
    }
}

/// True exactly when every component lies in its canonical range.
pub fn check_bounds(m: &Model, p: &Perceptual) -> (r: bool)
    ensures
        r == spec_in_bounds(*m, *p),
{
    let radial_ok = match m {
        Model::HueSatLight => 0 <= p.radial && p.radial <= UNIT,
        Model::LightChromaHue => 0 <= p.radial,
    };
    radial_ok && 0 <= p.light && p.light <= UNIT
}

/// Forces out-of-range components to their nearest boundary.
pub fn clamp_color(m: &Model, p: Perceptual) -> (q: Perceptual)
    ensures
        q == spec_clamp(*m, p),
{
    let radial = match m {
        Model::HueSatLight => if p.radial < 0 {
            0
        } else if p.radial > UNIT {
            UNIT
        } else {
            p.radial
        },
        Model::LightChromaHue => if p.radial < 0 {
            0
        } else {
            p.radial
        },
    };
    let light = if p.light < 0 {
        0
    } else if p.light > UNIT {
        UNIT
    } else {
        p.light
    };
    Perceptual { hue: p.hue, radial, light }
}

/// Rejects or clamps an out-of-range color, as configured.
pub fn resolve_bounds(cfg: &Config, p: Perceptual) -> (r: Result<Perceptual, AdjustError>)
    ensures
        r == spec_resolve(*cfg, p),
{
    match cfg.policy {
        Policy::Reject => {
            if check_bounds(&cfg.model, &p) {
                Ok(p)
            } else {
                Err(AdjustError::OutOfBounds)
            }
        },
        Policy::Clamp => Ok(clamp_color(&cfg.model, p)),
    }
}

/// Increasing a component and then decreasing by the same value returns to
/// the starting color, as long as both the intermediate and the starting
/// color pass the reject-policy bounds check.
pub proof fn lemma_increase_decrease_round_trip(up: Config, down: Config, p: Perceptual)
    requires
        up.valid(),
        down.valid(),
        up.component == down.component,
        up.value == down.value,
        up.adjustment is Increase,
        down.adjustment is Decrease,
        up.policy is Reject,
        down.policy is Reject,
        up.model == down.model,
        p.bounded(),
        p.hue < HUE_MOD,
        spec_in_bounds(up.model, p),
        spec_in_bounds(up.model, spec_apply(up, p)),
    ensures
        spec_resolve(up, spec_apply(up, p)) == Ok::<Perceptual, AdjustError>(spec_apply(up, p)),
        spec_apply(down, spec_apply(up, p)) == p,
        spec_resolve(down, p) == Ok::<Perceptual, AdjustError>(p),
{
    match up.component {
        Component::Hue => {
            lemma_norm_hue_range(p.hue + up.value);
            lemma_norm_hue_cancel(p.hue as int, up.value as int);
        },
        _ => {},
    }
}

/// Setting hue to values one full turn apart gives the same color, for
/// each of the three adjustment kinds.
pub proof fn lemma_hue_wraps(a: Config, b: Config, p: Perceptual)
    requires
        a.valid(),
        b.valid(),
        a.component is Hue,
        b.component is Hue,
        a.adjustment == b.adjustment,
        b.value == a.value + HUE_MOD,
    ensures
        spec_apply(a, p) == spec_apply(b, p),
{
    match a.adjustment {
        Adjustment::Assign => {
            lemma_norm_hue_turn(a.value as int);
        },
        Adjustment::Increase => {
            lemma_norm_hue_turn(p.hue + a.value);
        },
        Adjustment::Decrease => {
            lemma_norm_hue_turn(p.hue - b.value);
            assert(p.hue - b.value + HUE_MOD == p.hue - a.value);
        },
    }
}

/// The reject policy accepts a color exactly when every component lies in
/// its canonical range, both boundaries included; an accepted color passes
/// through unchanged, a rejected one yields the out-of-bounds error.
pub proof fn lemma_reject_iff_in_bounds(cfg: Config, p: Perceptual)
    requires
        cfg.policy is Reject,
    ensures
        spec_resolve(cfg, p) is Ok <==> spec_in_bounds(cfg.model, p),
        spec_resolve(cfg, p) is Ok ==> spec_resolve(cfg, p)->Ok_0 == p,
        !spec_in_bounds(cfg.model, p) ==> spec_resolve(cfg, p) == Err::<
            Perceptual,
            AdjustError,
        >(AdjustError::OutOfBounds),
{
}

/// After clamping, every component lies in its canonical range, and the
/// hue is exactly the hue that came in.
pub proof fn lemma_clamp_within_bounds(m: Model, p: Perceptual)
    ensures
        spec_in_bounds(m, spec_clamp(m, p)),
        spec_clamp(m, p).hue == p.hue,
{
}

} // verus!
