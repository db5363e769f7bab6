//! Fixed-point sine and cosine of angles given in micro-degrees.
//!
//! The half-turn sine is the classical rational approximation
//! `sin(x deg) ~= 4x(180 - x) / (40500 - x(180 - x))`, evaluated here at
//! millidegree resolution; its error against the real sine stays below a
//! quarter of a percent, and it is exact at 0, 30, 90, 150 and 180 degrees.

use vstd::prelude::*;
use crate::fixed::{SCALE, FULL_TURN, sdiv, div_fx, wrap_angle, lemma_sdiv_bound};

verus! {

/// Half a turn in millidegrees, the domain of the core approximation.
pub const HALF_TURN_MDEG: i64 = 180_000;

/// The denominator constant of the rational sine approximation, scaled to
/// millidegree inputs.
pub const SIN_DENOM: i64 = 40_500_000_000;

/// A quarter turn in micro-degrees.
pub const QUARTER_TURN: i64 = 90_000_000;

/// The rational sine approximation on `[0, 180_000]` millidegrees.
pub open spec fn spec_sin_half(x: int) -> int
    recommends
        0 <= x <= HALF_TURN_MDEG,
{
    let t = x * (HALF_TURN_MDEG - x);
    sdiv(4 * t * (SCALE as int), (SIN_DENOM as int) - t)
}

/// Sine of an angle in micro-degrees, scaled by `SCALE`: the angle is
/// reduced to one turn, quantized to millidegrees, and folded onto the
/// half-turn approximation with its sign.
pub open spec fn spec_sin(x: int) -> int {
    let w = x % (FULL_TURN as int);
    let md = w / 1000;
    if md <= HALF_TURN_MDEG {
        spec_sin_half(md)
    } else {
        -spec_sin_half(md - HALF_TURN_MDEG)
    }
}

/// Cosine, as the sine shifted by a quarter turn.
pub open spec fn spec_cos(x: int) -> int {
    spec_sin(x + QUARTER_TURN as int)
}

fn sin_half(x: i64) -> (r: i64)
    requires
        0 <= x <= HALF_TURN_MDEG,
    ensures
        r == spec_sin_half(x as int),
        0 <= r <= SCALE,
{
    proof {
        assert(0 <= (x as int) * (HALF_TURN_MDEG - x) <= 8_100_000_000) by (nonlinear_arith)
            requires 0 <= x <= HALF_TURN_MDEG;
    }
    let t = x * (HALF_TURN_MDEG - x);
    let num = 4 * t * SCALE;
    let den = SIN_DENOM - t;
    proof {
        assert(4 * (t as int) * (SCALE as int) <= (SCALE as int) * ((SIN_DENOM as int) - t))
            by (nonlinear_arith)
            requires 0 <= t <= 8_100_000_000;
        assert(0 <= 4 * (t as int) * (SCALE as int)) by (nonlinear_arith)
            requires t >= 0;
        lemma_sdiv_bound(4 * (t as int) * (SCALE as int), (SIN_DENOM as int) - t, SCALE as int);
    }
    div_fx(num, den)
}

/// Sine of an angle in micro-degrees; the result is in `[-SCALE, SCALE]`.
pub fn sin_fx(x: i64) -> (r: i64)
    ensures
        r == spec_sin(x as int),
        -SCALE <= r <= SCALE,
{
    let w = wrap_angle(x);
    let md = div_fx(w, 1000);
    proof {
        vstd::arithmetic::div_mod::lemma_fundamental_div_mod(w as int, 1000);
        vstd::arithmetic::div_mod::lemma_mod_bound(w as int, 1000);
        vstd::arithmetic::div_mod::lemma_div_pos_is_pos(w as int, 1000);
    }
    if md <= HALF_TURN_MDEG {
        sin_half(md)
    } else {
        let s = sin_half(md - HALF_TURN_MDEG);
        -s
    }
}

/// Cosine of an angle in micro-degrees; the result is in `[-SCALE, SCALE]`.
/// The bound on the argument only keeps the quarter-turn shift in range.
pub fn cos_fx(x: i64) -> (r: i64)
    requires
        -FULL_TURN <= x <= FULL_TURN,
    ensures
        r == spec_cos(x as int),
        -SCALE <= r <= SCALE,
{
    sin_fx(x + QUARTER_TURN)
}

} // verus!
