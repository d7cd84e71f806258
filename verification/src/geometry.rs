//! From a bar to the rectangles that draw it.
//!
//! A bar is drawn as up to three rectangles, in this order: the border, one
//! backing rectangle beneath the whole bar; the empty part, over the whole
//! length of the bar; the full part, over the filled share of the length
//! and flush with the edge that the bar fills from. A renderer that paints
//! them in list order layers them correctly.
//!
//! The border is one rectangle beneath the bar, not four strips around it:
//! one rectangle to draw instead of four, with square corners, and with the
//! border's colour beneath a bar that is not opaque.

use vstd::prelude::*;
use copyless::VecHelper;
use crate::bar::{Statbar, StatbarBorder};
use crate::color::{Color, ColorSpec};
use crate::scalar::{lemma_lerp_between, Scalar, SCALE};
use crate::vector::{lemma_apply_is_odd, Rotation, Vec2};

verus! {

/// Where an object is in the world: its position and its rotation.
#[derive(Clone, Copy, Debug, PartialEq, Eq, Structural)]
pub struct Anchor {
    pub position: Vec2,
    pub rotation: Rotation,
}

impl Anchor {
    /// The anchor of an object without a transform: the origin, unrotated.
    pub open spec fn spec_origin() -> Anchor {
        Anchor { position: Vec2::spec_zero(), rotation: Rotation::spec_identity() }
    }

    /// The anchor of an object without a transform: the origin, unrotated.
    #[verifier::when_used_as_spec(spec_origin)]
    pub fn origin() -> (out: Anchor)
        ensures
            out == Anchor::spec_origin(),
    {
        Anchor { position: Vec2::zero(), rotation: Rotation::identity() }
    }

    /// The anchor of something that sits at `offset` in this anchor's frame
    /// and is turned by `rotation` relative to it.
    pub open spec fn spec_moved(self, offset: Vec2, rotation: Rotation) -> Anchor {
        Anchor {
            position: self.position.spec_plus(self.rotation.spec_apply(offset)),
            rotation: self.rotation.spec_compose(rotation),
        }
    }

    /// The anchor of something that sits at `offset` in this anchor's frame
    /// and is turned by `rotation` relative to it.
    #[verifier::when_used_as_spec(spec_moved)]
    pub fn moved(self, offset: Vec2, rotation: Rotation) -> (out: Anchor)
        ensures
            out == self.spec_moved(offset, rotation),
    {
        Anchor {
            position: self.position.plus(self.rotation.apply(offset)),
            rotation: self.rotation.compose(rotation),
        }
    }
}

/// One solid rectangle to draw: its centre, its depth, its width and
/// height in its own frame, its rotation and its colour.
#[derive(Clone, Copy, Debug, PartialEq, Eq, Structural)]
pub struct Rect {
    pub position: Vec2,
    pub depth: Scalar,
    pub size: Vec2,
    pub rotation: Rotation,
    pub color: Color,
}

/// Appends `rect` to `out` and returns the index it was written at. The
/// body calls `copyless::VecHelper::alloc`, which reserves room for one
/// more element with `Vec::reserve` where the vector is full, and
/// `VecAllocation::init`, which writes the value into that room, sets the
/// length to one more and returns the index. The contract is that of
/// `Vec::push`, with the index added; as with `Vec::push`, the call does
/// not return where the room cannot be had.
#[verifier::external_body]
fn emit(out: &mut Vec<Rect>, rect: Rect) -> (index: usize)
    ensures
        final(out)@ == old(out)@.push(rect),
        index == old(out)@.len(),
{
    out.alloc().init(rect)
}

impl<F> Statbar<F> {
    /// The length that is drawn: a negative length counts as zero.
    pub open spec fn spec_drawn_length(self) -> Scalar {
        self.length.spec_floor_zero()
    }

    /// The thickness that is drawn: a negative thickness counts as zero.
    pub open spec fn spec_drawn_thickness(self) -> Scalar {
        self.thickness.spec_floor_zero()
    }

    /// The vector with `along` on the bar's major axis, the axis of its
    /// length, and `across` on its minor axis.
    pub open spec fn spec_oriented(self, along: Scalar, across: Scalar) -> Vec2 {
        if self.vertical {
            Vec2 { x: across, y: along }
        } else {
            Vec2 { x: along, y: across }
        }
    }

    /// The vector with `along` on the bar's major axis and `across` on its
    /// minor axis.
    pub fn oriented(&self, along: Scalar, across: Scalar) -> (out: Vec2)
        ensures
            out == self.spec_oriented(along, across),
    {
        if self.vertical {
            Vec2 { x: across, y: along }
        } else {
            Vec2 { x: along, y: across }
        }
    }

    /// Where the bar's centre is, and how the bar is turned, for an object
    /// at `anchor`.
    pub open spec fn spec_placement(self, anchor: Anchor) -> Anchor {
        anchor.spec_moved(self.displacement, self.rotation)
    }

    /// The backing rectangle of `border`: the bar's length and both end
    /// thicknesses along the major axis, the bar's thickness and both side
    /// thicknesses along the minor axis, centred on the bar.
    pub open spec fn spec_border_rect(self, border: StatbarBorder, anchor: Anchor, depth: Scalar)
        -> Rect {
        let placement = self.spec_placement(anchor);
        Rect {
            position: placement.position,
            depth,
            size: self.spec_oriented(
                self.spec_drawn_length().spec_plus(border.left.spec_floor_zero()).spec_plus(
                    border.right.spec_floor_zero(),
                ),
                self.spec_drawn_thickness().spec_plus(border.bottom.spec_floor_zero()).spec_plus(
                    border.top.spec_floor_zero(),
                ),
            ),
            rotation: placement.rotation,
            color: border.color,
        }
    }

    /// The rectangle of the empty part: the whole bar, centred on the
    /// bar's position.
    pub open spec fn spec_empty_rect(self, anchor: Anchor, depth: Scalar) -> Rect {
        let placement = self.spec_placement(anchor);
        Rect {
            position: placement.position,
            depth,
            size: self.spec_oriented(self.spec_drawn_length(), self.spec_drawn_thickness()),
            rotation: placement.rotation,
            color: self.empty_color,
        }
    }

    /// The length of the full part: the share `value`, held within
    /// `[0, 1]`, of the drawn length.
    pub open spec fn spec_full_length(self) -> Scalar {
        self.spec_drawn_length().spec_times(self.value.spec_clamp_unit())
    }

    /// How far the centre of the full part lies from the centre of the bar
    /// along the major axis: half of what the full part leaves of the
    /// length, toward the start of the bar, or toward its end where the bar
    /// is reversed. In terms of the length `l` and the value `v` this is
    /// `l * (v - 1) / 2`, or its opposite.
    pub open spec fn spec_full_shift(self) -> Scalar {
        let rest = self.spec_drawn_length().spec_minus(self.spec_full_length()).spec_half();
        if self.reverse {
            rest
        } else {
            rest.spec_neg()
        }
    }

    /// The offset of the centre of the full part from the bar's position,
    /// in the world.
    pub open spec fn spec_full_offset(self, anchor: Anchor) -> Vec2 {
        self.spec_placement(anchor).rotation.spec_apply(
            self.spec_oriented(self.spec_full_shift(), Scalar::spec_zero()),
        )
    }

    /// The rectangle of the full part, coloured `fill`.
    pub open spec fn spec_full_rect(self, anchor: Anchor, depth: Scalar, fill: Color) -> Rect {
        let placement = self.spec_placement(anchor);
        Rect {
            position: placement.position.spec_plus(self.spec_full_offset(anchor)),
            depth,
            size: self.spec_oriented(self.spec_full_length(), self.spec_drawn_thickness()),
            rotation: placement.rotation,
            color: fill,
        }
    }

    /// Whether a border is drawn: the bar is shown and has one.
    pub open spec fn emits_border(self) -> bool {
        !self.hide && self.border is Some
    }

    /// Whether the empty part is drawn: the bar is shown and its value is
    /// below one.
    pub open spec fn emits_empty(self) -> bool {
        !self.hide && self.value@ < SCALE
    }

    /// Whether the full part is drawn: the bar is shown and its value is
    /// above zero.
    pub open spec fn emits_full(self) -> bool {
        !self.hide && self.value@ > 0
    }

    /// The rectangles of the bar for an object at `anchor`, at `depth`, with
    /// the full part coloured `fill`: the border, the empty part and the
    /// full part, each where it is drawn, in this order.
    pub open spec fn spec_build(self, anchor: Anchor, depth: Scalar, fill: Color) -> Seq<Rect> {
        let border_part = if self.emits_border() {
            seq![self.spec_border_rect(self.border->0, anchor, depth)]
        } else {
            Seq::<Rect>::empty()
        };
        let empty_part = if self.emits_empty() {
            seq![self.spec_empty_rect(anchor, depth)]
        } else {
            Seq::<Rect>::empty()
        };
        let full_part = if self.emits_full() {
            seq![self.spec_full_rect(anchor, depth, fill)]
        } else {
            Seq::<Rect>::empty()
        };
        border_part + empty_part + full_part
    }

    /// The rectangles of a bar whose colour rule holds no function.
    pub open spec fn spec_rects(self, anchor: Anchor, depth: Scalar) -> Seq<Rect> {
        self.spec_build(anchor, depth, self.color.spec_evaluate(self.value))
    }
}

impl<F: Fn(Color, Color, Scalar) -> Color> Statbar<F> {
    /// Whether the colour rule gives one colour only at the bar's value.
    /// This holds of every rule without a function; a `Custom` rule has it
    /// where its function gives one result only for the two ends and the
    /// value.
    pub open spec fn is_repeatable(self) -> bool {
        self.color matches ColorSpec::Custom { min, max, calculate } ==> forall|
            a: Color,
            b: Color,
        |
            call_ensures(calculate, (min, max, self.value.spec_clamp_unit()), a) && call_ensures(
                calculate,
                (min, max, self.value.spec_clamp_unit()),
                b,
            ) ==> a == b
    }

    /// Whether `out` is the list of rectangles of this bar for an object at
    /// `anchor`, at `depth`: it is [`Statbar::spec_build`] with the full
    /// part, the last of the list, in a colour of the bar's rule at the
    /// bar's value.
    pub open spec fn builds(self, anchor: Anchor, depth: Scalar, out: Seq<Rect>) -> bool {
        &&& out == self.spec_build(anchor, depth, out.last().color)
        &&& self.emits_full() ==> self.color.evaluates_to(self.value, out.last().color)
    }

    /// Appends the rectangles that draw the bar of an object at `anchor`, at
    /// `depth`, to `out`, in painting order. A hidden bar adds none.
    pub fn build_into(&self, anchor: Anchor, depth: Scalar, out: &mut Vec<Rect>)
        requires
            self.wf(),
        ensures
            old(out)@.len() <= final(out)@.len(),
            final(out)@.subrange(0, old(out)@.len() as int) == old(out)@,
            self.builds(
                anchor,
                depth,
                final(out)@.subrange(old(out)@.len() as int, final(out)@.len() as int),
            ),
            !(self.color is Custom) ==> final(out)@ == old(out)@ + self.spec_rects(anchor, depth),
    {
        let ghost before = out@;
        if self.hide {
            assert(out@.subrange(before.len() as int, out@.len() as int) =~= Seq::<Rect>::empty());
            assert(out@.subrange(0, before.len() as int) =~= before);
            assert(out@ =~= before + self.spec_rects(anchor, depth));
            return ;
        }
        let placement = anchor.moved(self.displacement, self.rotation);
        let length = self.length.floor_zero();
        let thickness = self.thickness.floor_zero();
        if let Some(border) = self.border {
            let along = length.plus(border.left.floor_zero()).plus(border.right.floor_zero());
            let across = thickness.plus(border.bottom.floor_zero()).plus(border.top.floor_zero());
            emit(
                out,
                Rect {
                    position: placement.position,
                    depth,
                    size: self.oriented(along, across),
                    rotation: placement.rotation,
                    color: border.color,
                },
            );
        }
        if self.value.lt(Scalar::one()) {
            emit(
                out,
                Rect {
                    position: placement.position,
                    depth,
                    size: self.oriented(length, thickness),
                    rotation: placement.rotation,
                    color: self.empty_color,
                },
            );
        }
        if Scalar::zero().lt(self.value) {
            let value = self.value.clamp_unit();
            let fill = self.color.evaluate(self.value);
            let full_length = length.times(value);
            let rest = length.minus(full_length).half();
            let shift = if self.reverse {
                rest
            } else {
                rest.neg()
            };
            let offset = placement.rotation.apply(self.oriented(shift, Scalar::zero()));
            emit(
                out,
                Rect {
                    position: placement.position.plus(offset),
                    depth,
                    size: self.oriented(full_length, thickness),
                    rotation: placement.rotation,
                    color: fill,
                },
            );
        }
        proof {
            let part = out@.subrange(before.len() as int, out@.len() as int);
            assert(part =~= self.spec_build(anchor, depth, part.last().color));
            assert(out@.subrange(0, before.len() as int) =~= before);
            assert(out@ =~= before + part);
        }
    }

    /// The rectangles that draw the bar of an object at `anchor`, at
    /// `depth`, in painting order. A hidden bar gives none.
    pub fn build(&self, anchor: Anchor, depth: Scalar) -> (out: Vec<Rect>)
        requires
            self.wf(),
        ensures
            self.builds(anchor, depth, out@),
            !(self.color is Custom) ==> out@ == self.spec_rects(anchor, depth),
    {
        let mut out: Vec<Rect> = Vec::new();
        self.build_into(anchor, depth, &mut out);
        assert(out@.subrange(0, out@.len() as int) =~= out@);
        out
    }
}

/// Which parts are drawn follows the value: a shown bar with a value of
/// zero or below has no full part, one with a value of one or above has no
/// empty part, and one with a value between the two has both. The border,
/// where the bar has one, comes first, and the full part last.
pub proof fn lemma_parts_follow_value<F>(bar: Statbar<F>, anchor: Anchor, depth: Scalar, fill: Color)
    requires
        !bar.hide,
    ensures
        bar.value@ <= 0 ==> !bar.emits_full() && bar.emits_empty(),
        bar.value@ >= SCALE ==> bar.emits_full() && !bar.emits_empty(),
        0 < bar.value@ < SCALE ==> bar.emits_full() && bar.emits_empty(),
        bar.spec_build(anchor, depth, fill).len() == (if bar.border is Some {
            1nat
        } else {
            0nat
        }) + (if bar.value@ < SCALE {
            1nat
        } else {
            0nat
        }) + (if bar.value@ > 0 {
            1nat
        } else {
            0nat
        }),
        bar.border is Some ==> bar.spec_build(anchor, depth, fill).first() == bar.spec_border_rect(
            bar.border->0,
            anchor,
            depth,
        ),
        bar.value@ > 0 ==> bar.spec_build(anchor, depth, fill).last() == bar.spec_full_rect(
            anchor,
            depth,
            fill,
        ),
        bar.value@ <= 0 ==> bar.spec_build(anchor, depth, fill).last() == bar.spec_empty_rect(
            anchor,
            depth,
        ),
        0 < bar.value@ < SCALE ==> bar.spec_build(anchor, depth, fill)[bar.spec_build(
            anchor,
            depth,
            fill,
        ).len() - 2] == bar.spec_empty_rect(anchor, depth),
{
}

/// A hidden bar is drawn as nothing.
pub proof fn lemma_hidden_bar_is_empty<F>(bar: Statbar<F>, anchor: Anchor, depth: Scalar, fill: Color)
    requires
        bar.hide,
    ensures
        bar.spec_build(anchor, depth, fill) =~= Seq::<Rect>::empty(),
{
}

/// Reversing a bar mirrors its full part across the bar's centre along the
/// major axis: the full parts of a bar and of the same bar reversed have
/// the same size, rotation, depth and colour, and their centres lie at
/// opposite offsets from the bar's position. The border and the empty part
/// are the same for both.
pub proof fn lemma_reverse_mirrors_full_part<F>(
    bar: Statbar<F>,
    mirrored: Statbar<F>,
    anchor: Anchor,
    depth: Scalar,
    fill: Color,
)
    requires
        mirrored == (Statbar { reverse: !bar.reverse, ..bar }),
    ensures
        mirrored.spec_full_offset(anchor) == bar.spec_full_offset(anchor).spec_neg(),
        mirrored.spec_full_rect(anchor, depth, fill).size == bar.spec_full_rect(
            anchor,
            depth,
            fill,
        ).size,
        mirrored.spec_full_rect(anchor, depth, fill).rotation == bar.spec_full_rect(
            anchor,
            depth,
            fill,
        ).rotation,
        mirrored.spec_full_rect(anchor, depth, fill).depth == depth,
        mirrored.spec_full_rect(anchor, depth, fill).color == fill,
        mirrored.spec_full_rect(anchor, depth, fill).position == bar.spec_placement(
            anchor,
        ).position.spec_plus(bar.spec_full_offset(anchor).spec_neg()),
        mirrored.spec_empty_rect(anchor, depth) == bar.spec_empty_rect(anchor, depth),
        bar.border is Some ==> mirrored.spec_border_rect(bar.border->0, anchor, depth)
            == bar.spec_border_rect(bar.border->0, anchor, depth),
{
    let shift = bar.spec_full_shift();
    let local = bar.spec_oriented(shift, Scalar::spec_zero());
    assert(mirrored.spec_full_shift() == shift.spec_neg());
    assert(mirrored.spec_oriented(mirrored.spec_full_shift(), Scalar::spec_zero())
        == local.spec_neg());
    lemma_apply_is_odd(bar.spec_placement(anchor).rotation, local);
}

/// The same, said of the lists that are built: for a shown bar with a value
/// above zero, the list of the bar and the list of the same bar reversed
/// agree in everything but the last rectangle, the full part; the two full
/// parts agree in size, rotation, depth and colour, and lie at opposite
/// offsets from the bar's position.
pub proof fn lemma_reversed_lists_mirror<F: Fn(Color, Color, Scalar) -> Color>(
    bar: Statbar<F>,
    mirrored: Statbar<F>,
    anchor: Anchor,
    depth: Scalar,
    forward: Seq<Rect>,
    backward: Seq<Rect>,
)
    requires
        mirrored == (Statbar { reverse: !bar.reverse, ..bar }),
        !bar.hide,
        bar.value@ > 0,
        bar.is_repeatable(),
        bar.builds(anchor, depth, forward),
        mirrored.builds(anchor, depth, backward),
    ensures
        forward.len() == backward.len(),
        forward.len() >= 1,
        forward.drop_last() == backward.drop_last(),
        forward.last().size == backward.last().size,
        forward.last().rotation == backward.last().rotation,
        forward.last().depth == backward.last().depth,
        forward.last().color == backward.last().color,
        forward.last().position == bar.spec_placement(anchor).position.spec_plus(
            bar.spec_full_offset(anchor),
        ),
        backward.last().position == bar.spec_placement(anchor).position.spec_plus(
            bar.spec_full_offset(anchor).spec_neg(),
        ),
{
    lemma_reverse_mirrors_full_part(bar, mirrored, anchor, depth, backward.last().color);
    assert(forward.drop_last() =~= backward.drop_last());
}

/// The full part stays inside the outline of the empty part and is flush
/// with the edge that the bar fills from: its length is between zero and
/// the drawn length, and twice its shift from the centre is what it leaves
/// of the length, to within one millionth.
pub proof fn lemma_full_part_within_bar<F>(bar: Statbar<F>)
    ensures
        0 <= bar.spec_full_length()@ <= bar.spec_drawn_length()@,
        bar.reverse ==> 0 <= bar.spec_full_shift()@,
        !bar.reverse ==> bar.spec_full_shift()@ <= 0,
        ({
            let rest = bar.spec_drawn_length()@ - bar.spec_full_length()@;
            let reach = if bar.reverse {
                2 * bar.spec_full_shift()@
            } else {
                -2 * bar.spec_full_shift()@
            };
            rest - 1 <= reach <= rest
        }),
        bar.value@ >= SCALE ==> bar.spec_full_length() == bar.spec_drawn_length()
            && bar.spec_full_shift()@ == 0,
{
    let length = bar.spec_drawn_length()@;
    let share = bar.value.spec_clamp_unit()@;
    lemma_lerp_between(0, length, share);
    assert(share * (length - 0) == length * share) by (nonlinear_arith);
}

/// No rectangle has a negative width or height, whatever the bar holds: a
/// negative length, thickness or border thickness counts as zero, and a
/// value outside `[0, 1]` is held within it before the full part is sized.
pub proof fn lemma_sizes_are_not_negative<F>(
    bar: Statbar<F>,
    anchor: Anchor,
    depth: Scalar,
    fill: Color,
    index: int,
)
    requires
        0 <= index < bar.spec_build(anchor, depth, fill).len(),
    ensures
        bar.spec_build(anchor, depth, fill)[index].size.x@ >= 0,
        bar.spec_build(anchor, depth, fill)[index].size.y@ >= 0,
{
    lemma_full_part_within_bar(bar);
}

/// A value outside `[0, 1]` draws the bar as the nearest end of the range
/// does: a list is a list of the bar exactly if it is a list of the same
/// bar with its value held within `[0, 1]`.
pub proof fn lemma_build_holds_the_value<F: Fn(Color, Color, Scalar) -> Color>(
    bar: Statbar<F>,
    held: Statbar<F>,
    anchor: Anchor,
    depth: Scalar,
    out: Seq<Rect>,
)
    requires
        held == (Statbar { value: bar.value.spec_clamp_unit(), ..bar }),
    ensures
        bar.builds(anchor, depth, out) <==> held.builds(anchor, depth, out),
        bar.spec_rects(anchor, depth) == held.spec_rects(anchor, depth),
{
    assert(bar.spec_build(anchor, depth, out.last().color) =~= held.spec_build(
        anchor,
        depth,
        out.last().color,
    ));
    let fill = bar.color.spec_evaluate(bar.value);
    assert(bar.spec_build(anchor, depth, fill) =~= held.spec_build(anchor, depth, fill));
}

/// Building is repeatable: two lists built from the same bar, anchor and
/// depth are equal. For a bar with a `Custom` colour rule this asks that
/// the function gives one colour only for the two ends and the value.
pub proof fn lemma_build_is_repeatable<F: Fn(Color, Color, Scalar) -> Color>(
    bar: Statbar<F>,
    anchor: Anchor,
    depth: Scalar,
    first: Seq<Rect>,
    second: Seq<Rect>,
)
    requires
        bar.builds(anchor, depth, first),
        bar.builds(anchor, depth, second),
        bar.is_repeatable(),
    ensures
        first == second,
{
    assert(first =~= second);
}

} // verus!
