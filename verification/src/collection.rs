//! Groups of bars that share one placement.

use vstd::prelude::*;
use crate::bar::Statbar;
use crate::color::Color;
use crate::geometry::{lemma_build_is_repeatable, Anchor, Rect};
use crate::scalar::Scalar;
use crate::vector::{lemma_identity_is_neutral, Rotation, Vec2};

verus! {

/// An ordered group of bars on one object. The group has an offset and a
/// rotation of its own, and every member is placed in the group's frame.
/// A bar keeps the index it was added at: the bars are drawn and updated in
/// index order, and never reordered.
pub struct BarCollection<F> {
    /// the bars, in the order they were added
    pub bars: Vec<Statbar<F>>,
    /// offset of the group from the object's position, in the object's
    /// frame
    pub displacement: Vec2,
    /// rotation of the group relative to the object
    pub rotation: Rotation,
}

impl<F> BarCollection<F> {
    /// An empty group at `displacement`, turned by `rotation`.
    pub fn new(displacement: Vec2, rotation: Rotation) -> (out: BarCollection<F>)
        ensures
            out.bars@ == Seq::<Statbar<F>>::empty(),
            out.displacement == displacement,
            out.rotation == rotation,
    {
        BarCollection { bars: Vec::new(), displacement, rotation }
    }

    /// The number of bars in the group.
    pub fn len(&self) -> (out: usize)
        ensures
            out == self.bars@.len(),
    {
        self.bars.len()
    }

    /// Adds `bar` after the bars of the group and returns its index.
    pub fn push(&mut self, bar: Statbar<F>) -> (index: usize)
        ensures
            final(self).bars@ == old(self).bars@.push(bar),
            final(self).displacement == old(self).displacement,
            final(self).rotation == old(self).rotation,
            index == old(self).bars@.len(),
    {
        let index = self.bars.len();
        self.bars.push(bar);
        index
    }

    /// The bar at `index`.
    pub fn bar(&self, index: usize) -> (out: &Statbar<F>)
        requires
            index < self.bars@.len(),
        ensures
            *out == self.bars@[index as int],
    {
        &self.bars[index]
    }

    /// Sets the value of the bar at `index`. Nothing else changes.
    pub fn set_value(&mut self, index: usize, value: Scalar)
        requires
            index < old(self).bars@.len(),
        ensures
            final(self).bars@ == old(self).bars@.update(
                index as int,
                (Statbar { value, ..old(self).bars@[index as int] }),
            ),
            final(self).displacement == old(self).displacement,
            final(self).rotation == old(self).rotation,
    {
        self.bars[index].value = value;
        assert(self.bars@ =~= old(self).bars@.update(
            index as int,
            (Statbar { value, ..old(self).bars@[index as int] }),
        ));
    }

    /// The anchor of the group for an object at `anchor`: the frame that
    /// the members are placed in.
    pub open spec fn spec_group_anchor(self, anchor: Anchor) -> Anchor {
        anchor.spec_moved(self.displacement, self.rotation)
    }

    /// The rectangles of the first `count` bars of a group whose colour
    /// rules hold no function, bar after bar.
    pub open spec fn spec_rects_upto(self, anchor: Anchor, depth: Scalar, count: nat) -> Seq<Rect>
        decreases count,
    {
        if count == 0 {
            Seq::<Rect>::empty()
        } else {
            self.spec_rects_upto(anchor, depth, (count - 1) as nat) + self.bars@[count
                - 1].spec_rects(self.spec_group_anchor(anchor), depth)
        }
    }

    /// The rectangles of one more bar are those of the bars before it,
    /// followed by its own.
    pub proof fn lemma_rects_step(self, anchor: Anchor, depth: Scalar, count: nat)
        ensures
            self.spec_rects_upto(anchor, depth, count + 1) == self.spec_rects_upto(
                anchor,
                depth,
                count,
            ) + self.bars@[count as int].spec_rects(self.spec_group_anchor(anchor), depth),
    {
    }

    /// The rectangles of a group whose colour rules hold no function.
    pub open spec fn spec_rects_all(self, anchor: Anchor, depth: Scalar) -> Seq<Rect> {
        self.spec_rects_upto(anchor, depth, self.bars@.len())
    }

    /// Whether no bar of the group has a `Custom` colour rule.
    pub open spec fn has_no_custom(self) -> bool {
        forall|i: int| 0 <= i < self.bars@.len() ==> !((#[trigger] self.bars@[i]).color is Custom)
    }
}

impl<F: Fn(Color, Color, Scalar) -> Color> BarCollection<F> {
    /// Whether every bar of the group is well formed.
    pub open spec fn wf(self) -> bool {
        forall|i: int| 0 <= i < self.bars@.len() ==> (#[trigger] self.bars@[i]).wf()
    }

    /// Whether `parts` holds, for each bar of the group in index order, a
    /// list of rectangles of that bar placed in the group's frame.
    pub open spec fn builds_parts(self, anchor: Anchor, depth: Scalar, parts: Seq<Seq<Rect>>)
        -> bool {
        &&& parts.len() == self.bars@.len()
        &&& forall|i: int|
            0 <= i < self.bars@.len() ==> self.bars@[i].builds(
                self.spec_group_anchor(anchor),
                depth,
                #[trigger] parts[i],
            )
    }

    /// Whether `out` is a list of rectangles of the group for an object at
    /// `anchor`, at `depth`: the lists of its bars, one after the other in
    /// index order.
    pub open spec fn builds_all(self, anchor: Anchor, depth: Scalar, out: Seq<Rect>) -> bool {
        exists|parts: Seq<Seq<Rect>>|
            self.builds_parts(anchor, depth, parts) && out == parts.flatten()
    }

    /// The rectangles that draw the group for an object at `anchor`, at
    /// `depth`: those of the first bar, then those of the second, and so
    /// on.
    pub fn build_all(&self, anchor: Anchor, depth: Scalar) -> (out: Vec<Rect>)
        requires
            self.wf(),
        ensures
            self.builds_all(anchor, depth, out@),
            self.has_no_custom() ==> out@ == self.spec_rects_all(anchor, depth),
    {
        let group = anchor.moved(self.displacement, self.rotation);
        let mut out: Vec<Rect> = Vec::new();
        let ghost mut parts: Seq<Seq<Rect>> = Seq::empty();
        let count = self.bars.len();
        let mut index: usize = 0;
        while index < count
            invariant
                self.wf(),
                count == self.bars@.len(),
                index <= count,
                group == self.spec_group_anchor(anchor),
                parts.len() == index,
                forall|i: int|
                    0 <= i < index ==> self.bars@[i].builds(group, depth, #[trigger] parts[i]),
                out@ == parts.flatten(),
                self.has_no_custom() ==> out@ == self.spec_rects_upto(anchor, depth, index as nat),
            decreases count - index,
        {
            let ghost before = out@;
            self.bars[index].build_into(group, depth, &mut out);
            proof {
                let part = out@.subrange(before.len() as int, out@.len() as int);
                assert(out@ =~= before + part);
                parts.lemma_flatten_push(part);
                parts = parts.push(part);
                if self.has_no_custom() {
                    assert(!(self.bars@[index as int].color is Custom));
                    self.lemma_rects_step(anchor, depth, index as nat);
                }
            }
            index = index + 1;
        }
        assert(self.builds_parts(anchor, depth, parts));
        out
    }
}

/// Building a group is repeatable: two lists built from the same group,
/// anchor and depth are equal, where the colour rule of every bar gives one
/// colour only.
pub proof fn lemma_build_all_is_repeatable<F: Fn(Color, Color, Scalar) -> Color>(
    group: BarCollection<F>,
    anchor: Anchor,
    depth: Scalar,
    first: Seq<Rect>,
    second: Seq<Rect>,
)
    requires
        group.builds_all(anchor, depth, first),
        group.builds_all(anchor, depth, second),
        forall|i: int| 0 <= i < group.bars@.len() ==> (#[trigger] group.bars@[i]).is_repeatable(),
    ensures
        first == second,
{
    let a = choose|parts: Seq<Seq<Rect>>|
        group.builds_parts(anchor, depth, parts) && first == parts.flatten();
    let b = choose|parts: Seq<Seq<Rect>>|
        group.builds_parts(anchor, depth, parts) && second == parts.flatten();
    assert forall|i: int| 0 <= i < a.len() implies a[i] == b[i] by {
        assert(group.bars@[i].is_repeatable());
        lemma_build_is_repeatable(
            group.bars@[i],
            group.spec_group_anchor(anchor),
            depth,
            a[i],
            b[i],
        );
    }
    assert(a =~= b);
}

/// A group turned by a right angle carries its members with it: for an
/// object at the origin and a group without an offset of its own, a member
/// at the offset `(x, y)` in the group's frame is placed at `(-y, x)`.
pub proof fn lemma_quarter_turned_group_places_members<F>(group: BarCollection<F>, index: int)
    requires
        0 <= index < group.bars@.len(),
        group.displacement == Vec2::spec_zero(),
        group.rotation == Rotation::spec_quarter_turn(),
        group.bars@[index].displacement.in_range(),
    ensures
        group.bars@[index].spec_placement(group.spec_group_anchor(Anchor::spec_origin())).position
            == (Vec2 {
            x: group.bars@[index].displacement.y.spec_neg(),
            y: group.bars@[index].displacement.x,
        }),
{
    lemma_identity_is_neutral(Rotation::spec_quarter_turn());
}

} // verus!
