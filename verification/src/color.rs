//! Colours, and the rules that derive a fill colour from a bar's value.

use vstd::prelude::*;
use crate::ease::{spec_cosine_ease, cosine_ease, lemma_cosine_ease_fixed_points, HALF};
use crate::scalar::{Scalar, SCALE};

verus! {

/// Red, green, blue and opacity.
#[derive(Clone, Copy, Debug, PartialEq, Eq, Structural)]
pub struct Rgba {
    pub red: Scalar,
    pub green: Scalar,
    pub blue: Scalar,
    pub alpha: Scalar,
}

impl Rgba {
    /// The blend of `self` and `max` at fraction `t`, channel by channel.
    pub open spec fn spec_lerp(self, max: Rgba, t: Scalar) -> Rgba {
        Rgba {
            red: self.red.spec_lerp(max.red, t),
            green: self.green.spec_lerp(max.green, t),
            blue: self.blue.spec_lerp(max.blue, t),
            alpha: self.alpha.spec_lerp(max.alpha, t),
        }
    }

    /// The blend of `self` and `max` at fraction `t`, channel by channel.
    #[verifier::when_used_as_spec(spec_lerp)]
    pub fn lerp(self, max: Rgba, t: Scalar) -> (out: Rgba)
        ensures
            out == self.spec_lerp(max, t),
    {
        Rgba {
            red: self.red.lerp(max.red, t),
            green: self.green.lerp(max.green, t),
            blue: self.blue.lerp(max.blue, t),
            alpha: self.alpha.lerp(max.alpha, t),
        }
    }
}

/// Hue, saturation, lightness and opacity.
#[derive(Clone, Copy, Debug, PartialEq, Eq, Structural)]
pub struct Hsla {
    pub hue: Scalar,
    pub saturation: Scalar,
    pub lightness: Scalar,
    pub alpha: Scalar,
}

impl Hsla {
    /// The blend of `self` and `max` at fraction `t`, channel by channel.
    /// The hue is blended like the other channels: it does not take the
    /// short way round the colour wheel.
    pub open spec fn spec_lerp(self, max: Hsla, t: Scalar) -> Hsla {
        Hsla {
            hue: self.hue.spec_lerp(max.hue, t),
            saturation: self.saturation.spec_lerp(max.saturation, t),
            lightness: self.lightness.spec_lerp(max.lightness, t),
            alpha: self.alpha.spec_lerp(max.alpha, t),
        }
    }

    /// The blend of `self` and `max` at fraction `t`, channel by channel.
    #[verifier::when_used_as_spec(spec_lerp)]
    pub fn lerp(self, max: Hsla, t: Scalar) -> (out: Hsla)
        ensures
            out == self.spec_lerp(max, t),
    {
        Hsla {
            hue: self.hue.lerp(max.hue, t),
            saturation: self.saturation.lerp(max.saturation, t),
            lightness: self.lightness.lerp(max.lightness, t),
            alpha: self.alpha.lerp(max.alpha, t),
        }
    }
}

/// A colour to draw with, in one of two colour spaces.
#[derive(Clone, Copy, Debug, PartialEq, Eq, Structural)]
pub enum Color {
    Rgba(Rgba),
    Hsla(Hsla),
}

impl Color {
    /// The colour of these four channels.
    pub open spec fn spec_rgba(red: Scalar, green: Scalar, blue: Scalar, alpha: Scalar) -> Color {
        Color::Rgba(Rgba { red, green, blue, alpha })
    }

    /// The colour of these four channels.
    #[verifier::when_used_as_spec(spec_rgba)]
    pub fn rgba(red: Scalar, green: Scalar, blue: Scalar, alpha: Scalar) -> (out: Color)
        ensures
            out == Color::spec_rgba(red, green, blue, alpha),
    {
        Color::Rgba(Rgba { red, green, blue, alpha })
    }

    /// The opaque colour of the three channels, each in millionths.
    pub open spec fn spec_rgb_micros(red: i64, green: i64, blue: i64) -> Color {
        Color::Rgba(
            Rgba {
                red: Scalar { raw: red },
                green: Scalar { raw: green },
                blue: Scalar { raw: blue },
                alpha: Scalar { raw: SCALE },
            },
        )
    }

    /// The opaque colour of the three channels, each in millionths.
    #[verifier::when_used_as_spec(spec_rgb_micros)]
    pub fn rgb_micros(red: i64, green: i64, blue: i64) -> (out: Color)
        ensures
            out == Color::spec_rgb_micros(red, green, blue),
    {
        Color::Rgba(
            Rgba {
                red: Scalar { raw: red },
                green: Scalar { raw: green },
                blue: Scalar { raw: blue },
                alpha: Scalar { raw: SCALE },
            },
        )
    }

    /// The colour of this hue, saturation, lightness and opacity.
    pub open spec fn spec_hsla(
        hue: Scalar,
        saturation: Scalar,
        lightness: Scalar,
        alpha: Scalar,
    ) -> Color {
        Color::Hsla(Hsla { hue, saturation, lightness, alpha })
    }

    /// The colour of this hue, saturation, lightness and opacity.
    #[verifier::when_used_as_spec(spec_hsla)]
    pub fn hsla(hue: Scalar, saturation: Scalar, lightness: Scalar, alpha: Scalar) -> (out: Color)
        ensures
            out == Color::spec_hsla(hue, saturation, lightness, alpha),
    {
        Color::Hsla(Hsla { hue, saturation, lightness, alpha })
    }

    /// Opaque red.
    pub open spec fn spec_red() -> Color {
        Color::spec_rgb_micros(SCALE, 0, 0)
    }

    /// Opaque red.
    #[verifier::when_used_as_spec(spec_red)]
    pub fn red() -> (out: Color)
        ensures
            out == Color::spec_red(),
    {
        Color::rgb_micros(SCALE, 0, 0)
    }

    /// Opaque green.
    pub open spec fn spec_green() -> Color {
        Color::spec_rgb_micros(0, SCALE, 0)
    }

    /// Opaque green.
    #[verifier::when_used_as_spec(spec_green)]
    pub fn green() -> (out: Color)
        ensures
            out == Color::spec_green(),
    {
        Color::rgb_micros(0, SCALE, 0)
    }

    /// Opaque yellow.
    pub open spec fn spec_yellow() -> Color {
        Color::spec_rgb_micros(SCALE, SCALE, 0)
    }

    /// Opaque yellow.
    #[verifier::when_used_as_spec(spec_yellow)]
    pub fn yellow() -> (out: Color)
        ensures
            out == Color::spec_yellow(),
    {
        Color::rgb_micros(SCALE, SCALE, 0)
    }

    /// Opaque white.
    pub open spec fn spec_white() -> Color {
        Color::spec_rgb_micros(SCALE, SCALE, SCALE)
    }

    /// Opaque white.
    #[verifier::when_used_as_spec(spec_white)]
    pub fn white() -> (out: Color)
        ensures
            out == Color::spec_white(),
    {
        Color::rgb_micros(SCALE, SCALE, SCALE)
    }
}

/// How the colour of the full part of a bar follows the bar's value.
///
/// The blending variants hold their two ends in the colour space they blend
/// in. `Custom` holds a function of the two ends and the value; `F` is its
/// type.
#[allow(inconsistent_fields)]
pub enum ColorSpec<F> {
    /// Always this colour.
    Fixed(Color),
    /// A straight blend of red, green, blue and opacity.
    LinearLerp { min: Rgba, max: Rgba },
    /// A blend of red, green, blue and opacity along the cosine ramp.
    CosineLerp { min: Rgba, max: Rgba },
    /// A straight blend of hue, saturation, lightness and opacity.
    LinearLerpHsl { min: Hsla, max: Hsla },
    /// A blend of hue, saturation, lightness and opacity along the cosine
    /// ramp.
    CosineLerpHsl { min: Hsla, max: Hsla },
    /// Whatever `calculate` makes of the two ends and the value.
    Custom { min: Color, max: Color, calculate: F },
}

impl<F> ColorSpec<F> {
    /// The colour that a rule without a function gives at `value`, which is
    /// first held within `[0, 1]`. For a `Custom` rule the lower end stands
    /// in as a placeholder: what such a rule gives is said by
    /// [`ColorSpec::evaluates_to`].
    pub open spec fn spec_evaluate(self, value: Scalar) -> Color {
        let v = value.spec_clamp_unit();
        match self {
            ColorSpec::Fixed(color) => color,
            ColorSpec::LinearLerp { min, max } => Color::Rgba(min.spec_lerp(max, v)),
            ColorSpec::CosineLerp { min, max } => Color::Rgba(
                min.spec_lerp(max, spec_cosine_ease(v)),
            ),
            ColorSpec::LinearLerpHsl { min, max } => Color::Hsla(min.spec_lerp(max, v)),
            ColorSpec::CosineLerpHsl { min, max } => Color::Hsla(
                min.spec_lerp(max, spec_cosine_ease(v)),
            ),
            ColorSpec::Custom { min, .. } => min,
        }
    }

    /// The lower end of a blending rule, as a colour.
    pub open spec fn spec_min(self) -> Option<Color> {
        match self {
            ColorSpec::LinearLerp { min, .. } => Some(Color::Rgba(min)),
            ColorSpec::CosineLerp { min, .. } => Some(Color::Rgba(min)),
            ColorSpec::LinearLerpHsl { min, .. } => Some(Color::Hsla(min)),
            ColorSpec::CosineLerpHsl { min, .. } => Some(Color::Hsla(min)),
            _ => None,
        }
    }

    /// The upper end of a blending rule, as a colour.
    pub open spec fn spec_max(self) -> Option<Color> {
        match self {
            ColorSpec::LinearLerp { max, .. } => Some(Color::Rgba(max)),
            ColorSpec::CosineLerp { max, .. } => Some(Color::Rgba(max)),
            ColorSpec::LinearLerpHsl { max, .. } => Some(Color::Hsla(max)),
            ColorSpec::CosineLerpHsl { max, .. } => Some(Color::Hsla(max)),
            _ => None,
        }
    }

    /// Whether the rule takes `color` as one of its ends: a `Fixed` rule
    /// takes none, a blending rule takes a colour of the colour space it
    /// blends in, and a `Custom` rule takes any.
    pub open spec fn takes(self, color: Color) -> bool {
        match self {
            ColorSpec::Fixed(_) => false,
            ColorSpec::LinearLerp { .. } => color is Rgba,
            ColorSpec::CosineLerp { .. } => color is Rgba,
            ColorSpec::LinearLerpHsl { .. } => color is Hsla,
            ColorSpec::CosineLerpHsl { .. } => color is Hsla,
            ColorSpec::Custom { .. } => true,
        }
    }

    /// The rule with its lower end replaced by `color`. A `Fixed` rule has
    /// no ends, and a blending rule takes only a colour of the space it
    /// blends in: such a rule stays as it is.
    pub open spec fn spec_with_min(self, color: Color) -> ColorSpec<F> {
        match self {
            ColorSpec::Fixed(_) => self,
            ColorSpec::LinearLerp { min, max } => match color {
                Color::Rgba(c) => ColorSpec::LinearLerp { min: c, max },
                Color::Hsla(_) => self,
            },
            ColorSpec::CosineLerp { min, max } => match color {
                Color::Rgba(c) => ColorSpec::CosineLerp { min: c, max },
                Color::Hsla(_) => self,
            },
            ColorSpec::LinearLerpHsl { min, max } => match color {
                Color::Rgba(_) => self,
                Color::Hsla(c) => ColorSpec::LinearLerpHsl { min: c, max },
            },
            ColorSpec::CosineLerpHsl { min, max } => match color {
                Color::Rgba(_) => self,
                Color::Hsla(c) => ColorSpec::CosineLerpHsl { min: c, max },
            },
            ColorSpec::Custom { min, max, calculate } => ColorSpec::Custom {
                min: color,
                max,
                calculate,
            },
        }
    }

    /// The rule with its upper end replaced by `color`, as
    /// [`ColorSpec::spec_with_min`] does for the lower end.
    pub open spec fn spec_with_max(self, color: Color) -> ColorSpec<F> {
        match self {
            ColorSpec::Fixed(_) => self,
            ColorSpec::LinearLerp { min, max } => match color {
                Color::Rgba(c) => ColorSpec::LinearLerp { min, max: c },
                Color::Hsla(_) => self,
            },
            ColorSpec::CosineLerp { min, max } => match color {
                Color::Rgba(c) => ColorSpec::CosineLerp { min, max: c },
                Color::Hsla(_) => self,
            },
            ColorSpec::LinearLerpHsl { min, max } => match color {
                Color::Rgba(_) => self,
                Color::Hsla(c) => ColorSpec::LinearLerpHsl { min, max: c },
            },
            ColorSpec::CosineLerpHsl { min, max } => match color {
                Color::Rgba(_) => self,
                Color::Hsla(c) => ColorSpec::CosineLerpHsl { min, max: c },
            },
            ColorSpec::Custom { min, max, calculate } => ColorSpec::Custom {
                min,
                max: color,
                calculate,
            },
        }
    }

    /// Replaces the lower end of the rule by `color` and returns whether
    /// it did. A `Fixed` rule has no ends: it stays as it is, and the answer
    /// is false. So it is with a blending rule where `color` is not of the
    /// colour space it blends in.
    pub fn set_min(&mut self, color: Color) -> (replaced: bool)
        ensures
            *final(self) == old(self).spec_with_min(color),
            replaced == old(self).takes(color),
            !replaced ==> *final(self) == *old(self),
    {
        match self {
            ColorSpec::Fixed(_) => false,
            ColorSpec::LinearLerp { min, .. } => {
                if let Color::Rgba(c) = color {
                    *min = c;
                    true
                } else {
                    false
                }
            },
            ColorSpec::CosineLerp { min, .. } => {
                if let Color::Rgba(c) = color {
                    *min = c;
                    true
                } else {
                    false
                }
            },
            ColorSpec::LinearLerpHsl { min, .. } => {
                if let Color::Hsla(c) = color {
                    *min = c;
                    true
                } else {
                    false
                }
            },
            ColorSpec::CosineLerpHsl { min, .. } => {
                if let Color::Hsla(c) = color {
                    *min = c;
                    true
                } else {
                    false
                }
            },
            ColorSpec::Custom { min, .. } => {
                *min = color;
                true
            },
        }
    }

    /// Replaces the upper end of the rule by `color` and returns whether
    /// it did, as [`ColorSpec::set_min`] does for the lower end.
    pub fn set_max(&mut self, color: Color) -> (replaced: bool)
        ensures
            *final(self) == old(self).spec_with_max(color),
            replaced == old(self).takes(color),
            !replaced ==> *final(self) == *old(self),
    {
        match self {
            ColorSpec::Fixed(_) => false,
            ColorSpec::LinearLerp { max, .. } => {
                if let Color::Rgba(c) = color {
                    *max = c;
                    true
                } else {
                    false
                }
            },
            ColorSpec::CosineLerp { max, .. } => {
                if let Color::Rgba(c) = color {
                    *max = c;
                    true
                } else {
                    false
                }
            },
            ColorSpec::LinearLerpHsl { max, .. } => {
                if let Color::Hsla(c) = color {
                    *max = c;
                    true
                } else {
                    false
                }
            },
            ColorSpec::CosineLerpHsl { max, .. } => {
                if let Color::Hsla(c) = color {
                    *max = c;
                    true
                } else {
                    false
                }
            },
            ColorSpec::Custom { max, .. } => {
                *max = color;
                true
            },
        }
    }
}

impl<F: Clone> Clone for ColorSpec<F> {
    /// A copy of the rule. The copy of a rule without a function is equal
    /// to the rule; the copy of a `Custom` rule has the same two ends.
    fn clone(&self) -> (out: Self)
        ensures
            !(self is Custom) ==> out == *self,
            self matches ColorSpec::Custom { min, max, .. } ==> (out matches ColorSpec::Custom {
                min: out_min,
                max: out_max,
                ..
            } && out_min == min && out_max == max),
    {
        match self {
            ColorSpec::Fixed(color) => ColorSpec::Fixed(*color),
            ColorSpec::LinearLerp { min, max } => ColorSpec::LinearLerp { min: *min, max: *max },
            ColorSpec::CosineLerp { min, max } => ColorSpec::CosineLerp { min: *min, max: *max },
            ColorSpec::LinearLerpHsl { min, max } => ColorSpec::LinearLerpHsl {
                min: *min,
                max: *max,
            },
            ColorSpec::CosineLerpHsl { min, max } => ColorSpec::CosineLerpHsl {
                min: *min,
                max: *max,
            },
            ColorSpec::Custom { min, max, calculate } => ColorSpec::Custom {
                min: *min,
                max: *max,
                calculate: calculate.clone(),
            },
        }
    }
}

impl<F: Fn(Color, Color, Scalar) -> Color> ColorSpec<F> {
    /// Whether the function of a `Custom` rule may be called on every
    /// input. The other rules are always well formed.
    pub open spec fn wf(self) -> bool {
        self matches ColorSpec::Custom { calculate, .. } ==> forall|
            min: Color,
            max: Color,
            value: Scalar,
        | call_requires(calculate, (min, max, value))
    }

    /// Whether `out` is a colour of this rule at `value`: the result of the
    /// function on the two ends and the value held within `[0, 1]` for a
    /// `Custom` rule, and [`ColorSpec::spec_evaluate`] for every other.
    pub open spec fn evaluates_to(self, value: Scalar, out: Color) -> bool {
        match self {
            ColorSpec::Custom { min, max, calculate } => call_ensures(
                calculate,
                (min, max, value.spec_clamp_unit()),
                out,
            ),
            _ => out == self.spec_evaluate(value),
        }
    }

    /// The colour of the rule at `value`, which is first held within
    /// `[0, 1]`. The result of a `Custom` rule is handed on as it is. A
    /// blending rule gives its lower end at zero and its upper end at one,
    /// exactly.
    pub fn evaluate(&self, value: Scalar) -> (out: Color)
        requires
            self.wf(),
        ensures
            self.evaluates_to(value, out),
            value@ <= 0 && self.spec_min() is Some ==> Some(out) == self.spec_min(),
            value@ >= SCALE && self.spec_max() is Some ==> Some(out) == self.spec_max(),
    {
        proof {
            lemma_blend_reaches_its_ends(*self, value);
        }
        let v = value.clamp_unit();
        match self {
            ColorSpec::Fixed(color) => *color,
            ColorSpec::LinearLerp { min, max } => Color::Rgba(min.lerp(*max, v)),
            ColorSpec::CosineLerp { min, max } => Color::Rgba(min.lerp(*max, cosine_ease(v))),
            ColorSpec::LinearLerpHsl { min, max } => Color::Hsla(min.lerp(*max, v)),
            ColorSpec::CosineLerpHsl { min, max } => Color::Hsla(min.lerp(*max, cosine_ease(v))),
            ColorSpec::Custom { min, max, calculate } => calculate(*min, *max, v),
        }
    }
}

/// A blend at fraction zero or below is its lower end, and at fraction one
/// or above its upper end, exactly.
pub proof fn lemma_lerp_ends(min: Scalar, max: Scalar, t: Scalar)
    ensures
        t@ <= 0 ==> min.spec_lerp(max, t) == min,
        t@ >= SCALE ==> min.spec_lerp(max, t) == max,
{
    let f = t.spec_clamp_unit()@;
    let d = max@ - min@;
    if t@ <= 0 {
        assert(f * d == 0) by (nonlinear_arith)
            requires
                f == 0,
        ;
    }
    if t@ >= SCALE {
        assert(f * d == 1_000_000 * d) by (nonlinear_arith)
            requires
                f == 1_000_000,
        ;
    }
}

proof fn lemma_rgba_lerp_ends(min: Rgba, max: Rgba, t: Scalar)
    ensures
        t@ <= 0 ==> min.spec_lerp(max, t) == min,
        t@ >= SCALE ==> min.spec_lerp(max, t) == max,
{
    lemma_lerp_ends(min.red, max.red, t);
    lemma_lerp_ends(min.green, max.green, t);
    lemma_lerp_ends(min.blue, max.blue, t);
    lemma_lerp_ends(min.alpha, max.alpha, t);
}

proof fn lemma_hsla_lerp_ends(min: Hsla, max: Hsla, t: Scalar)
    ensures
        t@ <= 0 ==> min.spec_lerp(max, t) == min,
        t@ >= SCALE ==> min.spec_lerp(max, t) == max,
{
    lemma_lerp_ends(min.hue, max.hue, t);
    lemma_lerp_ends(min.saturation, max.saturation, t);
    lemma_lerp_ends(min.lightness, max.lightness, t);
    lemma_lerp_ends(min.alpha, max.alpha, t);
}

/// A blend of a value with itself is that value at every fraction.
pub proof fn lemma_lerp_constant(end: Scalar, t: Scalar)
    ensures
        end.spec_lerp(end, t) == end,
{
    assert(t.spec_clamp_unit()@ * (end@ - end@) == 0) by (nonlinear_arith);
}

/// A straight blend of red, green, blue and opacity gives its lower end at
/// value zero (or below) and its upper end at value one (or above),
/// exactly.
pub proof fn lemma_linear_lerp_ends<F>(min: Rgba, max: Rgba, value: Scalar)
    ensures
        value@ <= 0 ==> (ColorSpec::<F>::LinearLerp { min, max }).spec_evaluate(value)
            == Color::Rgba(min),
        value@ >= SCALE ==> (ColorSpec::<F>::LinearLerp { min, max }).spec_evaluate(value)
            == Color::Rgba(max),
{
    lemma_rgba_lerp_ends(min, max, value.spec_clamp_unit());
}

/// The same holds of every blending rule: each gives its lower end at
/// value zero (or below) and its upper end at value one (or above),
/// exactly.
pub proof fn lemma_blend_reaches_its_ends<F>(rule: ColorSpec<F>, value: Scalar)
    ensures
        value@ <= 0 && rule.spec_min() is Some ==> Some(rule.spec_evaluate(value))
            == rule.spec_min(),
        value@ >= SCALE && rule.spec_max() is Some ==> Some(rule.spec_evaluate(value))
            == rule.spec_max(),
{
    lemma_cosine_ease_fixed_points();
    let v = value.spec_clamp_unit();
    match rule {
        ColorSpec::LinearLerp { min, max } => {
            lemma_rgba_lerp_ends(min, max, v);
        },
        ColorSpec::CosineLerp { min, max } => {
            lemma_rgba_lerp_ends(min, max, spec_cosine_ease(v));
        },
        ColorSpec::LinearLerpHsl { min, max } => {
            lemma_hsla_lerp_ends(min, max, v);
        },
        ColorSpec::CosineLerpHsl { min, max } => {
            lemma_hsla_lerp_ends(min, max, spec_cosine_ease(v));
        },
        _ => {},
    }
}

/// A rule sees its value held within `[0, 1]`: a value below zero counts as
/// zero and a value above one as one.
pub proof fn lemma_rule_holds_the_value<F: Fn(Color, Color, Scalar) -> Color>(
    rule: ColorSpec<F>,
    value: Scalar,
    out: Color,
)
    ensures
        rule.spec_evaluate(value) == rule.spec_evaluate(value.spec_clamp_unit()),
        rule.evaluates_to(value, out) <==> rule.evaluates_to(value.spec_clamp_unit(), out),
{
}

/// Where the two ends are the same colour, the cosine blend and the
/// straight blend agree at every value: both give that colour.
pub proof fn lemma_cosine_matches_linear_on_equal_ends<F>(rgba: Rgba, hsla: Hsla, value: Scalar)
    ensures
        (ColorSpec::<F>::CosineLerp { min: rgba, max: rgba }).spec_evaluate(value) == Color::Rgba(
            rgba,
        ),
        (ColorSpec::<F>::LinearLerp { min: rgba, max: rgba }).spec_evaluate(value) == Color::Rgba(
            rgba,
        ),
        (ColorSpec::<F>::CosineLerpHsl { min: hsla, max: hsla }).spec_evaluate(value)
            == Color::Hsla(hsla),
        (ColorSpec::<F>::LinearLerpHsl { min: hsla, max: hsla }).spec_evaluate(value)
            == Color::Hsla(hsla),
{
    let v = value.spec_clamp_unit();
    let e = spec_cosine_ease(v);
    lemma_lerp_constant(rgba.red, v);
    lemma_lerp_constant(rgba.green, v);
    lemma_lerp_constant(rgba.blue, v);
    lemma_lerp_constant(rgba.alpha, v);
    lemma_lerp_constant(rgba.red, e);
    lemma_lerp_constant(rgba.green, e);
    lemma_lerp_constant(rgba.blue, e);
    lemma_lerp_constant(rgba.alpha, e);
    lemma_lerp_constant(hsla.hue, v);
    lemma_lerp_constant(hsla.saturation, v);
    lemma_lerp_constant(hsla.lightness, v);
    lemma_lerp_constant(hsla.alpha, v);
    lemma_lerp_constant(hsla.hue, e);
    lemma_lerp_constant(hsla.saturation, e);
    lemma_lerp_constant(hsla.lightness, e);
    lemma_lerp_constant(hsla.alpha, e);
}

/// The cosine ramp crosses the straight one in the middle: at value one
/// half the cosine blend and the straight blend give the same colour,
/// whatever the two ends are.
pub proof fn lemma_cosine_meets_linear_at_half<F>(rgba: (Rgba, Rgba), hsla: (Hsla, Hsla))
    ensures
        (ColorSpec::<F>::CosineLerp { min: rgba.0, max: rgba.1 }).spec_evaluate(
            Scalar { raw: HALF },
        ) == (ColorSpec::<F>::LinearLerp { min: rgba.0, max: rgba.1 }).spec_evaluate(
            Scalar { raw: HALF },
        ),
        (ColorSpec::<F>::CosineLerpHsl { min: hsla.0, max: hsla.1 }).spec_evaluate(
            Scalar { raw: HALF },
        ) == (ColorSpec::<F>::LinearLerpHsl { min: hsla.0, max: hsla.1 }).spec_evaluate(
            Scalar { raw: HALF },
        ),
{
    lemma_cosine_ease_fixed_points();
}

} // verus!
