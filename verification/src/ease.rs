//! The cosine ramp `(1 - cos(pi * v)) / 2` on `[0, 1]`, in fixed point.
//!
//! The ramp is computed from the power series of the cosine, carried to six
//! terms with twelve decimal places, on the lower half of the interval; the
//! upper half mirrors the lower one. The result is rounded to the nearest
//! millionth.

use vstd::prelude::*;
use crate::scalar::{Scalar, SCALE};

verus! {

/// Units in one whole inside the series: twelve decimal places.
pub const SERIES_SCALE: i128 = 1_000_000_000_000;

/// The midpoint of the unit interval, in millionths.
pub const HALF: i64 = 500_000;

/// `pi^2 / (2 * 2!)`, with twelve decimal places. The terms of the series
/// are `pi^(2k) / (2 * (2k)!)`, for `k` from 1 to 6.
pub const TERM_1: i128 = 2_467_401_100_272;

/// `pi^4 / (2 * 4!)`, with twelve decimal places.
pub const TERM_2: i128 = 2_029_356_063_208;

/// `pi^6 / (2 * 6!)`, with twelve decimal places.
pub const TERM_3: i128 = 667_631_384_427;

/// `pi^8 / (2 * 8!)`, with twelve decimal places.
pub const TERM_4: i128 = 117_665_315_179;

/// `pi^10 / (2 * 10!)`, with twelve decimal places.
pub const TERM_5: i128 = 12_903_445_695;

/// `pi^12 / (2 * 12!)`, with twelve decimal places.
pub const TERM_6: i128 = 964_787_155;

/// One step of the nested form of the series: `term - u * rest`.
pub open spec fn series_step(term: int, u: int, rest: int) -> int {
    term - (u * rest) / (SERIES_SCALE as int)
}

/// The series at the square `u` of the argument, with twelve decimal places:
/// `u * (T1 - u * (T2 - u * (T3 - u * (T4 - u * (T5 - u * T6)))))`.
pub open spec fn series(u: int) -> int {
    let r5 = series_step(TERM_5 as int, u, TERM_6 as int);
    let r4 = series_step(TERM_4 as int, u, r5);
    let r3 = series_step(TERM_3 as int, u, r4);
    let r2 = series_step(TERM_2 as int, u, r3);
    let r1 = series_step(TERM_1 as int, u, r2);
    (u * r1) / (SERIES_SCALE as int)
}

/// The ramp at `t` millionths, for `t` on the lower half of the interval:
/// the series at `t * t`, rounded to the nearest millionth and held at or
/// below one half.
pub open spec fn ramp_lower(t: int) -> int {
    let rounded = (series(t * t) + 500_000) / 1_000_000;
    if rounded > HALF as int {
        HALF as int
    } else {
        rounded
    }
}

/// The ramp at `t` millionths, for `t` within `[0, SCALE]`.
pub open spec fn ramp(t: int) -> int {
    if t <= HALF as int {
        ramp_lower(t)
    } else {
        SCALE as int - ramp_lower(SCALE as int - t)
    }
}

/// The cosine ramp at `value` held within `[0, 1]`.
pub open spec fn spec_cosine_ease(value: Scalar) -> Scalar {
    Scalar::of_int(ramp(value.spec_clamp_unit()@))
}

proof fn lemma_bounded_product(u: int, rest: int, u_max: int, rest_max: int)
    by (nonlinear_arith)
    requires
        0 <= u <= u_max,
        0 <= rest <= rest_max,
    ensures
        0 <= u * rest <= u_max * rest_max,
{
}

/// Every step of the series stays between zero and its leading term while
/// the argument is at most one half.
pub proof fn lemma_series_bounds(u: int)
    requires
        0 <= u <= 250_000_000_000,
    ensures
        ({
            let r5 = series_step(TERM_5 as int, u, TERM_6 as int);
            let r4 = series_step(TERM_4 as int, u, r5);
            let r3 = series_step(TERM_3 as int, u, r4);
            let r2 = series_step(TERM_2 as int, u, r3);
            let r1 = series_step(TERM_1 as int, u, r2);
            &&& 0 <= u * (TERM_6 as int) <= 250_000_000_000 * TERM_6
            &&& 0 <= r5 <= TERM_5
            &&& 0 <= u * r5 <= 250_000_000_000 * TERM_5
            &&& 0 <= r4 <= TERM_4
            &&& 0 <= u * r4 <= 250_000_000_000 * TERM_4
            &&& 0 <= r3 <= TERM_3
            &&& 0 <= u * r3 <= 250_000_000_000 * TERM_3
            &&& 0 <= r2 <= TERM_2
            &&& 0 <= u * r2 <= 250_000_000_000 * TERM_2
            &&& 0 <= r1 <= TERM_1
            &&& 0 <= u * r1 <= 250_000_000_000 * TERM_1
            &&& 0 <= series(u) <= 616_850_275_068
        }),
{
    let top: int = 250_000_000_000;
    let r5 = series_step(TERM_5 as int, u, TERM_6 as int);
    let r4 = series_step(TERM_4 as int, u, r5);
    let r3 = series_step(TERM_3 as int, u, r4);
    let r2 = series_step(TERM_2 as int, u, r3);
    let r1 = series_step(TERM_1 as int, u, r2);
    lemma_bounded_product(u, TERM_6 as int, top, TERM_6 as int);
    lemma_bounded_product(u, r5, top, TERM_5 as int);
    lemma_bounded_product(u, r4, top, TERM_4 as int);
    lemma_bounded_product(u, r3, top, TERM_3 as int);
    lemma_bounded_product(u, r2, top, TERM_2 as int);
    lemma_bounded_product(u, r1, top, TERM_1 as int);
}

proof fn lemma_square_bound(t: int)
    by (nonlinear_arith)
    requires
        0 <= t <= 500_000,
    ensures
        0 <= t * t <= 250_000_000_000,
{
}

fn step(term: i128, u: i128, rest: i128) -> (out: i128)
    requires
        0 <= u * rest <= 250_000_000_000 * TERM_1,
        0 <= term <= TERM_1,
    ensures
        out == series_step(term as int, u as int, rest as int),
{
    term - (u * rest) / SERIES_SCALE
}

fn cosine_ease_lower(t: i64) -> (out: i64)
    requires
        0 <= t <= HALF,
    ensures
        out == ramp_lower(t as int),
        0 <= out <= HALF,
{
    proof {
        lemma_square_bound(t as int);
        lemma_series_bounds(t as int * t as int);
    }
    let u: i128 = (t as i128) * (t as i128);
    let r5 = step(TERM_5, u, TERM_6);
    let r4 = step(TERM_4, u, r5);
    let r3 = step(TERM_3, u, r4);
    let r2 = step(TERM_2, u, r3);
    let r1 = step(TERM_1, u, r2);
    let sum: i128 = (u * r1) / SERIES_SCALE;
    let rounded: i128 = (sum + 500_000) / 1_000_000;
    if rounded > HALF as i128 {
        HALF
    } else {
        rounded as i64
    }
}

/// The cosine ramp at `value`: `value` is first held within `[0, 1]`.
#[verifier::when_used_as_spec(spec_cosine_ease)]
pub fn cosine_ease(value: Scalar) -> (out: Scalar)
    ensures
        out == spec_cosine_ease(value),
        out.is_unit(),
{
    let t = value.clamp_unit().micros();
    let raw = if t <= HALF {
        cosine_ease_lower(t)
    } else {
        SCALE - cosine_ease_lower(SCALE - t)
    };
    Scalar::from_micros(raw)
}

/// The ramp starts at zero, passes through one half at one half, and ends
/// at one.
pub proof fn lemma_cosine_ease_fixed_points()
    ensures
        spec_cosine_ease(Scalar { raw: 0 }) == (Scalar { raw: 0 }),
        spec_cosine_ease(Scalar { raw: HALF }) == (Scalar { raw: HALF }),
        spec_cosine_ease(Scalar { raw: SCALE }) == (Scalar { raw: SCALE }),
{
    assert(ramp_lower(0) == 0);
    assert(500_000int * 500_000int == 250_000_000_000int);
    assert(ramp_lower(500_000) == 500_000);
}

/// The ramp stays within `[0, 1]`.
pub proof fn lemma_cosine_ease_is_unit(value: Scalar)
    ensures
        spec_cosine_ease(value).is_unit(),
{
    let t = value.spec_clamp_unit()@;
    if t <= HALF as int {
        lemma_square_bound(t);
        lemma_series_bounds(t * t);
    } else {
        lemma_square_bound(SCALE as int - t);
        lemma_series_bounds((SCALE as int - t) * (SCALE as int - t));
    }
}

/// The ramp is symmetric about the midpoint: mirroring the argument mirrors
/// the result.
pub proof fn lemma_cosine_ease_mirror(value: Scalar)
    requires
        value.is_unit(),
    ensures
        spec_cosine_ease(Scalar { raw: (SCALE - value.raw) as i64 })@ == SCALE as int
            - spec_cosine_ease(value)@,
{
    lemma_cosine_ease_fixed_points();
    lemma_cosine_ease_is_unit(value);
    lemma_cosine_ease_is_unit(Scalar { raw: (SCALE - value.raw) as i64 });
}

} // verus!
