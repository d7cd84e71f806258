//! Fixed-point numbers with six decimal places.
//!
//! A [`Scalar`] stores a count of millionths in an `i64`. Arithmetic never
//! overflows: a result that does not fit is held at the nearest end of the
//! range `[-LIMIT, LIMIT]`, and a quotient is rounded toward zero, so that
//! negating the operands negates the result.

use vstd::prelude::*;

verus! {

/// Millionths in one whole.
pub const SCALE: i64 = 1_000_000;

/// Largest magnitude, in millionths, that arithmetic results take.
pub const LIMIT: i64 = 0x7fff_ffff_ffff_ffff;

/// `x` held within `[-LIMIT, LIMIT]`.
pub open spec fn saturate(x: int) -> int {
    if x < -(LIMIT as int) {
        -(LIMIT as int)
    } else if x > LIMIT as int {
        LIMIT as int
    } else {
        x
    }
}

/// The quotient of `p` by a positive `d`, rounded toward zero.
pub open spec fn trunc_div(p: int, d: int) -> int
    recommends
        d > 0,
{
    if p >= 0 {
        p / d
    } else {
        -((-p) / d)
    }
}

/// A fixed-point number: `raw` millionths.
#[derive(Clone, Copy, Debug, PartialEq, Eq, Structural)]
pub struct Scalar {
    pub raw: i64,
}

impl View for Scalar {
    type V = int;

    /// The number of millionths.
    open spec fn view(&self) -> int {
        self.raw as int
    }
}

impl Scalar {
    /// The scalar nearest to `x` millionths.
    pub open spec fn of_int(x: int) -> Scalar {
        Scalar { raw: saturate(x) as i64 }
    }

    /// The sum, held within the range.
    pub open spec fn spec_plus(self, rhs: Scalar) -> Scalar {
        Scalar::of_int(self@ + rhs@)
    }

    /// The difference, held within the range.
    pub open spec fn spec_minus(self, rhs: Scalar) -> Scalar {
        Scalar::of_int(self@ - rhs@)
    }

    /// The opposite; that of the least `i64` is held at `LIMIT`.
    pub open spec fn spec_neg(self) -> Scalar {
        Scalar::of_int(-self@)
    }

    /// The product, rounded toward zero and held within the range.
    pub open spec fn spec_times(self, rhs: Scalar) -> Scalar {
        Scalar::of_int(trunc_div(self@ * rhs@, SCALE as int))
    }

    /// One half, rounded toward zero.
    pub open spec fn spec_half(self) -> Scalar {
        Scalar::of_int(trunc_div(self@, 2))
    }

    /// `self` held within `[0, 1]`.
    pub open spec fn spec_clamp_unit(self) -> Scalar {
        if self@ < 0 {
            Scalar { raw: 0 }
        } else if self@ > SCALE as int {
            Scalar { raw: SCALE }
        } else {
            self
        }
    }

    /// `self` where it is positive, else zero.
    pub open spec fn spec_floor_zero(self) -> Scalar {
        if self@ < 0 {
            Scalar { raw: 0 }
        } else {
            self
        }
    }

    /// The point at fraction `t` of the way from `self` to `end`, where `t`
    /// is first held within `[0, 1]`: `self + t * (end - self)`. The point
    /// lies between the two ends, so nothing saturates.
    pub open spec fn spec_lerp(self, end: Scalar, t: Scalar) -> Scalar {
        Scalar {
            raw: (self@ + trunc_div(t.spec_clamp_unit()@ * (end@ - self@), SCALE as int)) as i64,
        }
    }

    /// Whether `self` is within `[-LIMIT, LIMIT]`, the range that arithmetic
    /// results take: every `i64` but the least.
    pub open spec fn in_range(self) -> bool {
        -(LIMIT as int) <= self@
    }

    /// Whether `self` lies within `[0, 1]`.
    pub open spec fn is_unit(self) -> bool {
        0 <= self@ <= SCALE as int
    }

    /// The number of `raw` millionths.
    pub fn from_micros(raw: i64) -> (out: Scalar)
        ensures
            out@ == raw,
    {
        Scalar { raw }
    }

    /// The whole number `units`, held within the range.
    pub fn from_units(units: i64) -> (out: Scalar)
        ensures
            out == Scalar::of_int(units as int * SCALE as int),
    {
        Scalar::saturating(units as i128 * 1_000_000)
    }

    /// The number of millionths.
    pub fn micros(self) -> (raw: i64)
        ensures
            raw == self@,
    {
        self.raw
    }

    /// Zero.
    #[verifier::when_used_as_spec(spec_zero)]
    pub fn zero() -> (out: Scalar)
        ensures
            out == Scalar::spec_zero(),
    {
        Scalar { raw: 0 }
    }

    /// Zero.
    pub open spec fn spec_zero() -> Scalar {
        Scalar { raw: 0 }
    }

    /// One whole.
    #[verifier::when_used_as_spec(spec_one)]
    pub fn one() -> (out: Scalar)
        ensures
            out == Scalar::spec_one(),
    {
        Scalar { raw: SCALE }
    }

    /// One whole.
    pub open spec fn spec_one() -> Scalar {
        Scalar { raw: SCALE }
    }

    fn saturating(wide: i128) -> (out: Scalar)
        ensures
            out == Scalar::of_int(wide as int),
    {
        if wide < -(LIMIT as i128) {
            Scalar { raw: -LIMIT }
        } else if wide > LIMIT as i128 {
            Scalar { raw: LIMIT }
        } else {
            Scalar { raw: wide as i64 }
        }
    }

    /// The sum, held within the range.
    #[verifier::when_used_as_spec(spec_plus)]
    pub fn plus(self, rhs: Scalar) -> (out: Scalar)
        ensures
            out == self.spec_plus(rhs),
    {
        Scalar::saturating(self.raw as i128 + rhs.raw as i128)
    }

    /// The difference, held within the range.
    #[verifier::when_used_as_spec(spec_minus)]
    pub fn minus(self, rhs: Scalar) -> (out: Scalar)
        ensures
            out == self.spec_minus(rhs),
    {
        Scalar::saturating(self.raw as i128 - rhs.raw as i128)
    }

    /// The opposite.
    #[verifier::when_used_as_spec(spec_neg)]
    pub fn neg(self) -> (out: Scalar)
        ensures
            out == self.spec_neg(),
    {
        Scalar::saturating(-(self.raw as i128))
    }

    /// The product, rounded toward zero and held within the range.
    #[verifier::when_used_as_spec(spec_times)]
    pub fn times(self, rhs: Scalar) -> (out: Scalar)
        ensures
            out == self.spec_times(rhs),
    {
        proof {
            lemma_product_fits(self.raw as int, rhs.raw as int);
        }
        let wide: i128 = (self.raw as i128) * (rhs.raw as i128);
        Scalar::saturating(wide / (SCALE as i128))
    }

    /// One half, rounded toward zero.
    #[verifier::when_used_as_spec(spec_half)]
    pub fn half(self) -> (out: Scalar)
        ensures
            out == self.spec_half(),
    {
        Scalar::saturating((self.raw as i128) / 2)
    }

    /// `self` held within `[0, 1]`.
    #[verifier::when_used_as_spec(spec_clamp_unit)]
    pub fn clamp_unit(self) -> (out: Scalar)
        ensures
            out == self.spec_clamp_unit(),
            out.is_unit(),
    {
        if self.raw < 0 {
            Scalar { raw: 0 }
        } else if self.raw > SCALE {
            Scalar { raw: SCALE }
        } else {
            self
        }
    }

    /// `self` where it is positive, else zero.
    #[verifier::when_used_as_spec(spec_floor_zero)]
    pub fn floor_zero(self) -> (out: Scalar)
        ensures
            out == self.spec_floor_zero(),
    {
        if self.raw < 0 {
            Scalar { raw: 0 }
        } else {
            self
        }
    }

    /// The point at fraction `t`, held within `[0, 1]`, of the way from
    /// `self` to `end`.
    #[verifier::when_used_as_spec(spec_lerp)]
    pub fn lerp(self, end: Scalar, t: Scalar) -> (out: Scalar)
        ensures
            out == self.spec_lerp(end, t),
    {
        let span: i128 = end.raw as i128 - self.raw as i128;
        let fraction: i128 = t.clamp_unit().raw as i128;
        proof {
            lemma_lerp_between(self@, end@, fraction as int);
        }
        let step: i128 = (fraction * span) / (SCALE as i128);
        Scalar { raw: (self.raw as i128 + step) as i64 }
    }

    /// Whether `self` is less than `rhs`.
    pub fn lt(self, rhs: Scalar) -> (out: bool)
        ensures
            out == (self@ < rhs@),
    {
        self.raw < rhs.raw
    }

    /// Whether `self` is at most `rhs`.
    pub fn le(self, rhs: Scalar) -> (out: bool)
        ensures
            out == (self@ <= rhs@),
    {
        self.raw <= rhs.raw
    }
}

/// A step of fraction `t` of the way from `a` to `b` ends between the two.
pub proof fn lemma_lerp_between(a: int, b: int, t: int)
    requires
        0 <= t <= SCALE,
    ensures
        a <= b ==> 0 <= t * (b - a) <= SCALE * (b - a) && a <= a + trunc_div(
            t * (b - a),
            SCALE as int,
        ) <= b,
        b <= a ==> SCALE * (b - a) <= t * (b - a) <= 0 && b <= a + trunc_div(
            t * (b - a),
            SCALE as int,
        ) <= a,
{
    let d = b - a;
    if d >= 0 {
        assert(0 <= t * d <= SCALE * d) by (nonlinear_arith)
            requires
                0 <= t <= SCALE,
                d >= 0,
        ;
    } else {
        assert(SCALE * d <= t * d <= 0) by (nonlinear_arith)
            requires
                0 <= t <= SCALE,
                d < 0,
        ;
    }
}

/// The product of two `i64` values fits an `i128`.
proof fn lemma_product_fits(a: int, b: int)
    by (nonlinear_arith)
    requires
        -0x8000_0000_0000_0000 <= a <= 0x7fff_ffff_ffff_ffff,
        -0x8000_0000_0000_0000 <= b <= 0x7fff_ffff_ffff_ffff,
    ensures
        -0x4000_0000_0000_0000_0000_0000_0000_0000 <= a * b
            <= 0x4000_0000_0000_0000_0000_0000_0000_0000,
{
}

} // verus!
