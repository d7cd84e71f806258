//! Points, offsets and rotations of the plane.

use vstd::prelude::*;
use crate::scalar::Scalar;

verus! {

/// A point or an offset of the plane.
#[derive(Clone, Copy, Debug, PartialEq, Eq, Structural)]
pub struct Vec2 {
    pub x: Scalar,
    pub y: Scalar,
}

impl Vec2 {
    /// The vector with these coordinates.
    pub open spec fn spec_new(x: Scalar, y: Scalar) -> Vec2 {
        Vec2 { x, y }
    }

    /// The vector with these coordinates.
    #[verifier::when_used_as_spec(spec_new)]
    pub fn new(x: Scalar, y: Scalar) -> (out: Vec2)
        ensures
            out == Vec2::spec_new(x, y),
    {
        Vec2 { x, y }
    }

    /// The origin.
    pub open spec fn spec_zero() -> Vec2 {
        Vec2 { x: Scalar::spec_zero(), y: Scalar::spec_zero() }
    }

    /// The origin.
    #[verifier::when_used_as_spec(spec_zero)]
    pub fn zero() -> (out: Vec2)
        ensures
            out == Vec2::spec_zero(),
    {
        Vec2 { x: Scalar::zero(), y: Scalar::zero() }
    }

    /// The sum, coordinate by coordinate.
    pub open spec fn spec_plus(self, rhs: Vec2) -> Vec2 {
        Vec2 { x: self.x.spec_plus(rhs.x), y: self.y.spec_plus(rhs.y) }
    }

    /// The sum, coordinate by coordinate.
    #[verifier::when_used_as_spec(spec_plus)]
    pub fn plus(self, rhs: Vec2) -> (out: Vec2)
        ensures
            out == self.spec_plus(rhs),
    {
        Vec2 { x: self.x.plus(rhs.x), y: self.y.plus(rhs.y) }
    }

    /// The opposite vector.
    pub open spec fn spec_neg(self) -> Vec2 {
        Vec2 { x: self.x.spec_neg(), y: self.y.spec_neg() }
    }

    /// The opposite vector.
    #[verifier::when_used_as_spec(spec_neg)]
    pub fn neg(self) -> (out: Vec2)
        ensures
            out == self.spec_neg(),
    {
        Vec2 { x: self.x.neg(), y: self.y.neg() }
    }

    /// Whether both coordinates are within the range of arithmetic results.
    pub open spec fn in_range(self) -> bool {
        self.x.in_range() && self.y.in_range()
    }
}

/// A rotation of the plane about the origin, held as the cosine and the
/// sine of its angle. Counter-clockwise angles are positive. Any pair of
/// numbers is taken as it is: one that does not lie on the unit circle
/// scales what it turns.
#[derive(Clone, Copy, Debug, PartialEq, Eq, Structural)]
pub struct Rotation {
    pub cos: Scalar,
    pub sin: Scalar,
}

impl Rotation {
    /// The rotation by no angle.
    pub open spec fn spec_identity() -> Rotation {
        Rotation { cos: Scalar::spec_one(), sin: Scalar::spec_zero() }
    }

    /// The rotation by no angle.
    #[verifier::when_used_as_spec(spec_identity)]
    pub fn identity() -> (out: Rotation)
        ensures
            out == Rotation::spec_identity(),
    {
        Rotation { cos: Scalar::one(), sin: Scalar::zero() }
    }

    /// The rotation by a right angle, counter-clockwise.
    pub open spec fn spec_quarter_turn() -> Rotation {
        Rotation { cos: Scalar::spec_zero(), sin: Scalar::spec_one() }
    }

    /// The rotation by a right angle, counter-clockwise.
    #[verifier::when_used_as_spec(spec_quarter_turn)]
    pub fn quarter_turn() -> (out: Rotation)
        ensures
            out == Rotation::spec_quarter_turn(),
    {
        Rotation { cos: Scalar::zero(), sin: Scalar::one() }
    }

    /// `v` turned by this rotation:
    /// `(cos * x - sin * y, sin * x + cos * y)`.
    pub open spec fn spec_apply(self, v: Vec2) -> Vec2 {
        Vec2 {
            x: self.cos.spec_times(v.x).spec_minus(self.sin.spec_times(v.y)),
            y: self.sin.spec_times(v.x).spec_plus(self.cos.spec_times(v.y)),
        }
    }

    /// `v` turned by this rotation.
    #[verifier::when_used_as_spec(spec_apply)]
    pub fn apply(self, v: Vec2) -> (out: Vec2)
        ensures
            out == self.spec_apply(v),
    {
        Vec2 {
            x: self.cos.times(v.x).minus(self.sin.times(v.y)),
            y: self.sin.times(v.x).plus(self.cos.times(v.y)),
        }
    }

    /// This rotation followed by `next`: the angles add.
    pub open spec fn spec_compose(self, next: Rotation) -> Rotation {
        Rotation {
            cos: self.cos.spec_times(next.cos).spec_minus(self.sin.spec_times(next.sin)),
            sin: self.sin.spec_times(next.cos).spec_plus(self.cos.spec_times(next.sin)),
        }
    }

    /// This rotation followed by `next`.
    #[verifier::when_used_as_spec(spec_compose)]
    pub fn compose(self, next: Rotation) -> (out: Rotation)
        ensures
            out == self.spec_compose(next),
    {
        Rotation {
            cos: self.cos.times(next.cos).minus(self.sin.times(next.sin)),
            sin: self.sin.times(next.cos).plus(self.cos.times(next.sin)),
        }
    }
}

/// The identity leaves every offset where it is.
pub proof fn lemma_identity_applies_as_itself(v: Vec2)
    requires
        v.in_range(),
    ensures
        Rotation::spec_identity().spec_apply(v) == v,
{
}

/// A quarter turn sends `(x, y)` to `(-y, x)`.
pub proof fn lemma_quarter_turn_applies(v: Vec2)
    requires
        v.in_range(),
    ensures
        Rotation::spec_quarter_turn().spec_apply(v) == (Vec2 { x: v.y.spec_neg(), y: v.x }),
{
}

/// Following the identity by a rotation, or a rotation by the identity,
/// gives that rotation.
pub proof fn lemma_identity_is_neutral(r: Rotation)
    requires
        r.cos.in_range(),
        r.sin.in_range(),
    ensures
        Rotation::spec_identity().spec_compose(r) == r,
        r.spec_compose(Rotation::spec_identity()) == r,
{
}

/// Turning the opposite offset gives the opposite of the turned offset.
pub proof fn lemma_apply_is_odd(r: Rotation, v: Vec2)
    requires
        v.in_range(),
    ensures
        r.spec_apply(v.spec_neg()) == r.spec_apply(v).spec_neg(),
{
    assert(r.cos@ * (-v.x@) == -(r.cos@ * v.x@)) by (nonlinear_arith);
    assert(r.sin@ * (-v.x@) == -(r.sin@ * v.x@)) by (nonlinear_arith);
    assert(r.cos@ * (-v.y@) == -(r.cos@ * v.y@)) by (nonlinear_arith);
    assert(r.sin@ * (-v.y@) == -(r.sin@ * v.y@)) by (nonlinear_arith);
}

} // verus!
