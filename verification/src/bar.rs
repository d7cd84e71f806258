//! The description of one bar.

use vstd::prelude::*;
use crate::color::{Color, ColorSpec};
use crate::scalar::Scalar;
use crate::vector::{Rotation, Vec2};

verus! {

/// A border around a bar: a colour, and a thickness for each edge. A
/// negative thickness counts as zero when the border is drawn.
#[derive(Clone, Copy, Debug, PartialEq, Eq, Structural)]
pub struct StatbarBorder {
    /// colour of the border
    pub color: Color,
    /// thickness of the border at the start of the bar's length
    pub left: Scalar,
    /// thickness of the border at the end of the bar's length
    pub right: Scalar,
    /// thickness of the border below the bar's thickness
    pub bottom: Scalar,
    /// thickness of the border above the bar's thickness
    pub top: Scalar,
}

impl StatbarBorder {
    /// A border with the same thickness on all four edges.
    pub open spec fn spec_all(color: Color, thickness: Scalar) -> StatbarBorder {
        StatbarBorder { color, left: thickness, right: thickness, bottom: thickness, top: thickness }
    }

    /// A border with the same thickness on all four edges.
    #[verifier::when_used_as_spec(spec_all)]
    pub fn all(color: Color, thickness: Scalar) -> (out: StatbarBorder)
        ensures
            out == StatbarBorder::spec_all(color, thickness),
    {
        StatbarBorder { color, left: thickness, right: thickness, bottom: thickness, top: thickness }
    }
}

impl Default for StatbarBorder {
    /// A white border, two units thick on every edge.
    fn default() -> (out: StatbarBorder)
        ensures
            out == StatbarBorder::spec_all(Color::spec_white(), Scalar { raw: 2_000_000 }),
    {
        StatbarBorder::all(Color::white(), Scalar::from_micros(2_000_000))
    }
}

/// One bar: what it shows, how large it is, where it sits relative to the
/// object it belongs to, and how it is coloured.
pub struct Statbar<F> {
    /// colour of the full part of the bar, as a rule on the value
    pub color: ColorSpec<F>,
    /// colour of the empty part of the bar
    pub empty_color: Color,
    /// length of the bar; a negative length counts as zero
    pub length: Scalar,
    /// thickness of the bar; a negative thickness counts as zero
    pub thickness: Scalar,
    /// offset of the bar's centre from the object's position, in the
    /// object's frame
    pub displacement: Vec2,
    /// rotation of the bar relative to the object
    pub rotation: Rotation,
    /// false => the bar's length runs along the x axis,
    /// true => the bar's length runs along the y axis
    pub vertical: bool,
    /// false => the bar fills from the start of its length
    /// (from the left, or from the bottom),
    /// true => the bar fills from the end of its length
    pub reverse: bool,
    /// if true, do not draw
    pub hide: bool,
    /// value of the bar
    /// * 0.0 => bar entirely coloured with the empty colour
    /// * 0.75 => bar three quarters full colour, one quarter empty colour
    /// * 1.0 => bar entirely coloured with the full colour
    ///
    /// Any value may be stored; it is held within `[0, 1]` where it is used.
    pub value: Scalar,
    /// border drawn beneath the bar, if any
    pub border: Option<StatbarBorder>,
}

impl<F> Statbar<F> {
    /// The bar that `default` makes: three quarters full, yellow on dark
    /// olive, a hundred units long and sixteen thick, horizontal, centred on
    /// its object, without a border.
    pub open spec fn spec_default() -> Statbar<F> {
        Statbar {
            color: ColorSpec::Fixed(Color::spec_yellow()),
            empty_color: Color::spec_rgb_micros(200_000, 200_000, 0),
            length: Scalar { raw: 100_000_000 },
            thickness: Scalar { raw: 16_000_000 },
            displacement: Vec2::spec_zero(),
            rotation: Rotation::spec_identity(),
            vertical: false,
            reverse: false,
            hide: false,
            value: Scalar { raw: 750_000 },
            border: None,
        }
    }
}

impl<F> Default for Statbar<F> {
    fn default() -> (out: Statbar<F>)
        ensures
            out == Statbar::<F>::spec_default(),
    {
        Statbar {
            color: ColorSpec::Fixed(Color::yellow()),
            empty_color: Color::rgb_micros(200_000, 200_000, 0),
            length: Scalar::from_micros(100_000_000),
            thickness: Scalar::from_micros(16_000_000),
            displacement: Vec2::zero(),
            rotation: Rotation::identity(),
            vertical: false,
            reverse: false,
            hide: false,
            value: Scalar::from_micros(750_000),
            border: None,
        }
    }
}

impl<F: Fn(Color, Color, Scalar) -> Color> Statbar<F> {
    /// Whether the bar's colour rule is well formed.
    pub open spec fn wf(self) -> bool {
        self.color.wf()
    }
}

} // verus!
