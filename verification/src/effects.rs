//! Rules that set the colour of a bar from its value each time the value
//! changes.

use vstd::prelude::*;
use crate::bar::Statbar;
use crate::color::{Color, ColorSpec, Rgba};
use crate::scalar::Scalar;

verus! {

/// Changes the colour of a bar depending on its value.
///
/// Could be used for a health bar that turns red when the character has
/// less than a quarter of its health left.
#[derive(Clone, Copy, Debug, PartialEq, Eq, Structural)]
pub struct StatbarColorSwitch {
    /// * `value <= pivot` => the bar's colour is `low`
    /// * `pivot < value` => the bar's colour is `high`
    pub pivot: Scalar,
    /// colour of the bar when its value is less than or equal to the pivot
    pub low: Color,
    /// colour of the bar when its value is greater than the pivot
    pub high: Color,
}

impl StatbarColorSwitch {
    /// The rule with this pivot and these two colours.
    pub open spec fn spec_new(pivot: Scalar, low: Color, high: Color) -> StatbarColorSwitch {
        StatbarColorSwitch { pivot, low, high }
    }

    /// The rule with this pivot and these two colours.
    #[verifier::when_used_as_spec(spec_new)]
    pub fn new(pivot: Scalar, low: Color, high: Color) -> (out: StatbarColorSwitch)
        ensures
            out == StatbarColorSwitch::spec_new(pivot, low, high),
    {
        StatbarColorSwitch { pivot, low, high }
    }

    /// The colour for a bar that shows `value`.
    pub open spec fn spec_color_at(self, value: Scalar) -> Color {
        if value@ <= self.pivot@ {
            self.low
        } else {
            self.high
        }
    }

    /// The colour for a bar that shows `value`.
    #[verifier::when_used_as_spec(spec_color_at)]
    pub fn color_at(self, value: Scalar) -> (out: Color)
        ensures
            out == self.spec_color_at(value),
    {
        if value.le(self.pivot) {
            self.low
        } else {
            self.high
        }
    }

    /// The bar after the rule has set its colour.
    pub open spec fn spec_applied<F>(self, bar: Statbar<F>) -> Statbar<F> {
        Statbar { color: ColorSpec::Fixed(self.spec_color_at(bar.value)), ..bar }
    }

    /// Sets the colour of `bar` from its value. Whatever colour rule the
    /// bar had is replaced.
    pub fn apply<F>(self, bar: &mut Statbar<F>)
        ensures
            *final(bar) == self.spec_applied(*old(bar)),
    {
        bar.color = ColorSpec::Fixed(self.color_at(bar.value));
    }
}

impl Default for StatbarColorSwitch {
    /// Red up to a quarter, green above.
    fn default() -> (out: StatbarColorSwitch)
        ensures
            out == StatbarColorSwitch::spec_new(
                Scalar { raw: 250_000 },
                Color::spec_red(),
                Color::spec_green(),
            ),
    {
        StatbarColorSwitch::new(Scalar::from_micros(250_000), Color::red(), Color::green())
    }
}

/// Blends the colour of a bar between `min` and `max` by the value of the
/// bar, in red, green, blue and opacity.
/// * value == 0. => colour == min
/// * value == 1. => colour == max
#[derive(Clone, Copy, Debug, PartialEq, Eq, Structural)]
pub struct StatbarColorLerp {
    /// bar colour when the value is 0.0
    pub min: Rgba,
    /// bar colour when the value is 1.0
    pub max: Rgba,
}

impl StatbarColorLerp {
    /// The rule that blends from `min` to `max`.
    pub open spec fn spec_new(min: Rgba, max: Rgba) -> StatbarColorLerp {
        StatbarColorLerp { min, max }
    }

    /// The rule that blends from `min` to `max`.
    #[verifier::when_used_as_spec(spec_new)]
    pub fn new(min: Rgba, max: Rgba) -> (out: StatbarColorLerp)
        ensures
            out == StatbarColorLerp::spec_new(min, max),
    {
        StatbarColorLerp { min, max }
    }

    /// The colour for a bar that shows `value`, which is first held within
    /// `[0, 1]`.
    pub open spec fn spec_color_at(self, value: Scalar) -> Color {
        Color::Rgba(self.min.spec_lerp(self.max, value))
    }

    /// The colour for a bar that shows `value`.
    #[verifier::when_used_as_spec(spec_color_at)]
    pub fn color_at(self, value: Scalar) -> (out: Color)
        ensures
            out == self.spec_color_at(value),
    {
        Color::Rgba(self.min.lerp(self.max, value))
    }

    /// The bar after the rule has set its colour.
    pub open spec fn spec_applied<F>(self, bar: Statbar<F>) -> Statbar<F> {
        Statbar { color: ColorSpec::Fixed(self.spec_color_at(bar.value)), ..bar }
    }

    /// Sets the colour of `bar` from its value. Whatever colour rule the
    /// bar had is replaced.
    pub fn apply<F>(self, bar: &mut Statbar<F>)
        ensures
            *final(bar) == self.spec_applied(*old(bar)),
    {
        bar.color = ColorSpec::Fixed(self.color_at(bar.value));
    }
}

impl Default for StatbarColorLerp {
    /// From red at zero to green at one.
    fn default() -> (out: StatbarColorLerp)
        ensures
            out == StatbarColorLerp::spec_new(
                Color::spec_red()->Rgba_0,
                Color::spec_green()->Rgba_0,
            ),
    {
        StatbarColorLerp::new(
            Rgba {
                red: Scalar::one(),
                green: Scalar::zero(),
                blue: Scalar::zero(),
                alpha: Scalar::one(),
            },
            Rgba {
                red: Scalar::zero(),
                green: Scalar::one(),
                blue: Scalar::zero(),
                alpha: Scalar::one(),
            },
        )
    }
}

} // verus!
