//! Fixed-point 3D vectors: cross product, squared magnitude, and
//! normalization to unit length (length `SCALE` in fixed-point ticks).

use vstd::prelude::*;
use crate::fixed::{SCALE, sdiv, isqrt_spec, isqrt, div_fx, lemma_sdiv_bound, lemma_isqrt_spec_bounds};

verus! {

/// Component magnitude accepted by the vector operations; twice the unit
/// length, which keeps every intermediate product within the machine range.
pub const COMP_LIMIT: i64 = 2_000_000;

/// A vector of fixed-point coordinates (scaled by `SCALE`).
#[derive(Clone, Copy, PartialEq, Eq, Structural, Debug)]
pub struct Vec3 {
    pub x: i64,
    pub y: i64,
    pub z: i64,
}

/// The mathematical value of a `Vec3`: a triple of unbounded integers.
pub struct V3 {
    pub x: int,
    pub y: int,
    pub z: int,
}

impl View for Vec3 {
    type V = V3;

    open spec fn view(&self) -> V3 {
        V3 { x: self.x as int, y: self.y as int, z: self.z as int }
    }
}

impl Vec3 {
    pub fn new(x: i64, y: i64, z: i64) -> (r: Vec3)
        ensures
            r@ == (V3 { x: x as int, y: y as int, z: z as int }),
    {
        Vec3 { x, y, z }
    }
}

/// All three components within `b` of zero.
pub open spec fn within(v: V3, b: int) -> bool {
    -b <= v.x <= b && -b <= v.y <= b && -b <= v.z <= b
}

/// The squared Euclidean magnitude.
pub open spec fn spec_norm_sq(v: V3) -> int {
    v.x * v.x + v.y * v.y + v.z * v.z
}

/// The standard 3D cross product (the result carries one extra factor of
/// `SCALE`, like any product of two fixed-point values).
pub open spec fn spec_cross(a: V3, b: V3) -> V3 {
    V3 {
        x: a.y * b.z - a.z * b.y,
        y: a.z * b.x - a.x * b.z,
        z: a.x * b.y - a.y * b.x,
    }
}

/// Divide each component by `SCALE`, dropping the extra fixed-point factor
/// that a componentwise product carries.
pub open spec fn spec_scale_down(v: V3) -> V3 {
    V3 {
        x: sdiv(v.x, SCALE as int),
        y: sdiv(v.y, SCALE as int),
        z: sdiv(v.z, SCALE as int),
    }
}

/// Scale to unit length: each component becomes `c * SCALE / |v|`, with the
/// magnitude taken as the integer square root of the squared magnitude.
pub open spec fn spec_normalize(v: V3) -> V3
    recommends
        spec_norm_sq(v) >= 1,
{
    let len = isqrt_spec(spec_norm_sq(v) as nat) as int;
    V3 {
        x: sdiv(v.x * SCALE, len),
        y: sdiv(v.y * SCALE, len),
        z: sdiv(v.z * SCALE, len),
    }
}

/// Scale a direction by a fixed-point factor (`speed`), dropping the extra
/// `SCALE` that the product carries.
pub open spec fn spec_scale(v: V3, s: int) -> V3 {
    V3 {
        x: sdiv(v.x * s, SCALE as int),
        y: sdiv(v.y * s, SCALE as int),
        z: sdiv(v.z * s, SCALE as int),
    }
}

/// The componentwise negation.
pub open spec fn spec_neg(v: V3) -> V3 {
    V3 { x: -v.x, y: -v.y, z: -v.z }
}

pub fn cross(a: &Vec3, b: &Vec3) -> (r: Vec3)
    requires
        within(a@, COMP_LIMIT as int),
        within(b@, COMP_LIMIT as int),
    ensures
        r@ == spec_cross(a@, b@),
        within(r@, 2 * (COMP_LIMIT as int) * (COMP_LIMIT as int)),
{
    proof {
        lemma_products_bounded(a@, b@);
    }
    Vec3 {
        x: a.y * b.z - a.z * b.y,
        y: a.z * b.x - a.x * b.z,
        z: a.x * b.y - a.y * b.x,
    }
}

/// Every pairwise product of components of two in-range vectors is bounded.
proof fn lemma_products_bounded(a: V3, b: V3)
    requires
        within(a, COMP_LIMIT as int),
        within(b, COMP_LIMIT as int),
    ensures
        -(COMP_LIMIT * COMP_LIMIT) <= a.x * b.x <= COMP_LIMIT * COMP_LIMIT,
        -(COMP_LIMIT * COMP_LIMIT) <= a.x * b.y <= COMP_LIMIT * COMP_LIMIT,
        -(COMP_LIMIT * COMP_LIMIT) <= a.x * b.z <= COMP_LIMIT * COMP_LIMIT,
        -(COMP_LIMIT * COMP_LIMIT) <= a.y * b.x <= COMP_LIMIT * COMP_LIMIT,
        -(COMP_LIMIT * COMP_LIMIT) <= a.y * b.y <= COMP_LIMIT * COMP_LIMIT,
        -(COMP_LIMIT * COMP_LIMIT) <= a.y * b.z <= COMP_LIMIT * COMP_LIMIT,
        -(COMP_LIMIT * COMP_LIMIT) <= a.z * b.x <= COMP_LIMIT * COMP_LIMIT,
        -(COMP_LIMIT * COMP_LIMIT) <= a.z * b.y <= COMP_LIMIT * COMP_LIMIT,
        -(COMP_LIMIT * COMP_LIMIT) <= a.z * b.z <= COMP_LIMIT * COMP_LIMIT,
{
    lemma_product_bound(a.x, b.x, COMP_LIMIT as int);
    lemma_product_bound(a.x, b.y, COMP_LIMIT as int);
    lemma_product_bound(a.x, b.z, COMP_LIMIT as int);
    lemma_product_bound(a.y, b.x, COMP_LIMIT as int);
    lemma_product_bound(a.y, b.y, COMP_LIMIT as int);
    lemma_product_bound(a.y, b.z, COMP_LIMIT as int);
    lemma_product_bound(a.z, b.x, COMP_LIMIT as int);
    lemma_product_bound(a.z, b.y, COMP_LIMIT as int);
    lemma_product_bound(a.z, b.z, COMP_LIMIT as int);
}

/// `|x| <= c` and `|y| <= c` bound `|x * y|` by `c * c`.
pub proof fn lemma_product_bound(x: int, y: int, c: int)
    requires
        -c <= x <= c,
        -c <= y <= c,
    ensures
        -(c * c) <= x * y <= c * c,
{
    assert(-(c * c) <= x * y <= c * c) by (nonlinear_arith)
        requires
            -c <= x <= c,
            -c <= y <= c;
}

pub fn scale_down(v: &Vec3) -> (r: Vec3)
    ensures
        r@ == spec_scale_down(v@),
{
    proof {
        lemma_sdiv_bound(v.x as int, SCALE as int, i64::MAX as int);
        lemma_sdiv_bound(v.y as int, SCALE as int, i64::MAX as int);
        lemma_sdiv_bound(v.z as int, SCALE as int, i64::MAX as int);
        assert((i64::MAX as int) * (SCALE as int) >= i64::MAX) by (nonlinear_arith);
    }
    Vec3 { x: div_fx(v.x, SCALE), y: div_fx(v.y, SCALE), z: div_fx(v.z, SCALE) }
}

pub fn norm_sq(v: &Vec3) -> (r: i64)
    requires
        within(v@, COMP_LIMIT as int),
    ensures
        r == spec_norm_sq(v@),
        0 <= r <= 3 * (COMP_LIMIT as int) * (COMP_LIMIT as int),
{
    proof {
        lemma_products_bounded(v@, v@);
        lemma_square_nonneg(v@.x);
        lemma_square_nonneg(v@.y);
        lemma_square_nonneg(v@.z);
    }
    v.x * v.x + v.y * v.y + v.z * v.z
}

pub proof fn lemma_square_nonneg(x: int)
    ensures
        x * x >= 0,
{
    assert(x * x >= 0) by (nonlinear_arith);
}

/// Normalization: the result has unit length up to rounding, and every
/// component is bounded by the unit length itself.
pub fn normalize(v: &Vec3) -> (r: Vec3)
    requires
        within(v@, COMP_LIMIT as int),
        1 <= spec_norm_sq(v@),
    ensures
        r@ == spec_normalize(v@),
        within(r@, SCALE as int),
{
    let ns = norm_sq(v);
    let len_u = isqrt(ns as u64);
    proof {
        if len_u == 0 {
            assert((0 + 1) * (0 + 1) == 1) by (nonlinear_arith);
            assert(false);
        }
        assert(len_u <= ns) by (nonlinear_arith)
            requires
                len_u * len_u <= ns,
                len_u >= 1;
    }
    let len = len_u as i64;
    proof {
        lemma_component_le_len(v@.x, v@, len as int);
        lemma_component_le_len(v@.y, v@, len as int);
        lemma_component_le_len(v@.z, v@, len as int);
        lemma_scaled_in_range(v@.x, len as int);
        lemma_scaled_in_range(v@.y, len as int);
        lemma_scaled_in_range(v@.z, len as int);
    }
    Vec3 {
        x: div_fx(v.x * SCALE, len),
        y: div_fx(v.y * SCALE, len),
        z: div_fx(v.z * SCALE, len),
    }
}

/// Truncating division of `c * SCALE` by `len` brackets the exact quotient:
/// the square of the result, scaled back by `len`, stays within one `len`
/// of the square of the dividend on either side.
proof fn lemma_scaled_div_sq_bounds(c: int, len: int)
    requires
        1 <= len,
        -len <= c <= len,
    ensures
        ({
            let q = sdiv(c * (SCALE as int), len);
            &&& q * q * (len * len) <= (c * (SCALE as int)) * (c * (SCALE as int))
            &&& (c * (SCALE as int)) * (c * (SCALE as int))
                <= (q * q + 2 * (SCALE as int) + 1) * (len * len)
        }),
{
    let s = SCALE as int;
    let a = c * s;
    let q = sdiv(a, len);
    lemma_scaled_in_range(c, len);
    if a >= 0 {
        vstd::arithmetic::div_mod::lemma_fundamental_div_mod(a, len);
        vstd::arithmetic::div_mod::lemma_mod_bound(a, len);
        vstd::arithmetic::div_mod::lemma_div_pos_is_pos(a, len);
        assert(q * q * (len * len) <= a * a && a * a <= (q * q + 2 * s + 1) * (len * len))
            by (nonlinear_arith)
            requires
                a == len * q + a % len,
                0 <= a % len < len,
                0 <= q <= s,
                len >= 1;
    } else {
        let b = -a;
        vstd::arithmetic::div_mod::lemma_fundamental_div_mod(b, len);
        vstd::arithmetic::div_mod::lemma_mod_bound(b, len);
        vstd::arithmetic::div_mod::lemma_div_pos_is_pos(b, len);
        let k = b / len;
        assert(q == -k);
        assert(q * q * (len * len) <= a * a && a * a <= (q * q + 2 * s + 1) * (len * len))
            by (nonlinear_arith)
            requires
                b == len * k + b % len,
                0 <= b % len < len,
                a == -b,
                q == -k,
                0 <= k <= s,
                len >= 1;
    }
}

/// Law: normalizing any vector of at least half a unit's length yields a
/// vector whose squared magnitude is within a few parts per million of the
/// unit length's square.
pub proof fn lemma_normalize_unit(v: V3)
    requires
        within(v, COMP_LIMIT as int),
        250_000_000_000 <= spec_norm_sq(v),
    ensures
        ((SCALE - 4) as int) * ((SCALE - 4) as int) <= spec_norm_sq(spec_normalize(v)),
        spec_norm_sq(spec_normalize(v)) <= ((SCALE + 3) as int) * ((SCALE + 3) as int),
{
    let s = SCALE as int;
    let n = spec_norm_sq(v);
    lemma_square_nonneg(v.x);
    lemma_square_nonneg(v.y);
    lemma_square_nonneg(v.z);
    lemma_isqrt_spec_bounds(n as nat);
    let len = isqrt_spec(n as nat) as int;
    assert(len >= 500_000) by (nonlinear_arith)
        requires
            (len + 1) * (len + 1) > n,
            n >= 250_000_000_000,
            len >= 0;
    lemma_component_le_len(v.x, v, len);
    lemma_component_le_len(v.y, v, len);
    lemma_component_le_len(v.z, v, len);
    lemma_scaled_div_sq_bounds(v.x, len);
    lemma_scaled_div_sq_bounds(v.y, len);
    lemma_scaled_div_sq_bounds(v.z, len);
    let r = spec_normalize(v);
    let nr = spec_norm_sq(r);
    let ll = len * len;
    // The squared magnitudes, scaled by len^2, bracket SCALE^2 * n.
    assert((v.x * s) * (v.x * s) == (s * s) * (v.x * v.x)) by (nonlinear_arith);
    assert((v.y * s) * (v.y * s) == (s * s) * (v.y * v.y)) by (nonlinear_arith);
    assert((v.z * s) * (v.z * s) == (s * s) * (v.z * v.z)) by (nonlinear_arith);
    assert((s * s) * n
        == (s * s) * (v.x * v.x) + (s * s) * (v.y * v.y) + (s * s) * (v.z * v.z))
        by (nonlinear_arith)
        requires n == v.x * v.x + v.y * v.y + v.z * v.z;
    assert((v.x * s) * (v.x * s) + (v.y * s) * (v.y * s) + (v.z * s) * (v.z * s)
        == (s * s) * n);
    assert(nr * ll == r.x * r.x * ll + r.y * r.y * ll + r.z * r.z * ll)
        by (nonlinear_arith)
        requires nr == r.x * r.x + r.y * r.y + r.z * r.z, ll == len * len;
    assert(nr * ll <= (s * s) * n);
    assert((s * s) * n <= (nr + 6 * s + 3) * ll) by (nonlinear_arith)
        requires
            (s * s) * n <= (r.x * r.x + 2 * s + 1) * ll + (r.y * r.y + 2 * s + 1) * ll
                + (r.z * r.z + 2 * s + 1) * ll,
            nr == r.x * r.x + r.y * r.y + r.z * r.z;
    // n itself is bracketed by len^2 and len^2 + 2 len.
    assert(ll <= n && n <= ll + 2 * len) by (nonlinear_arith)
        requires
            len * len <= n,
            n < (len + 1) * (len + 1),
            ll == len * len;
    // Upper bound: nr <= s^2 + 4 s.
    assert(nr <= s * s + 4 * s) by (nonlinear_arith)
        requires
            nr * ll <= (s * s) * n,
            n <= ll + 2 * len,
            ll == len * len,
            len >= 500_000,
            s == 1_000_000;
    // Lower bound: nr >= s^2 - 6 s - 3.
    assert(nr >= s * s - 6 * s - 3) by (nonlinear_arith)
        requires
            (s * s) * n <= (nr + 6 * s + 3) * ll,
            n >= ll,
            ll == len * len,
            len >= 500_000,
            s == 1_000_000;
    assert((s - 4) * (s - 4) <= s * s - 6 * s - 3 && s * s + 4 * s <= (s + 3) * (s + 3))
        by (nonlinear_arith)
        requires s == 1_000_000;
}

/// A component is no larger in magnitude than the integer square root of the
/// squared magnitude, provided the squared magnitude brackets it.
proof fn lemma_component_le_len(c: int, v: V3, len: int)
    requires
        c == v.x || c == v.y || c == v.z,
        len >= 1,
        len * len <= spec_norm_sq(v),
        spec_norm_sq(v) < (len + 1) * (len + 1),
    ensures
        -len <= c <= len,
{
    lemma_square_nonneg(v.x);
    lemma_square_nonneg(v.y);
    lemma_square_nonneg(v.z);
    assert(c * c <= spec_norm_sq(v));
    assert(-len <= c <= len) by (nonlinear_arith)
        requires
            c * c < (len + 1) * (len + 1),
            len >= 1;
}

/// `|c| <= len` bounds `sdiv(c * SCALE, len)` by `SCALE`.
proof fn lemma_scaled_in_range(c: int, len: int)
    requires
        len >= 1,
        -len <= c <= len,
    ensures
        -(SCALE as int) <= sdiv(c * (SCALE as int), len) <= SCALE as int,
{
    assert(-((SCALE as int) * len) <= c * (SCALE as int) <= (SCALE as int) * len)
        by (nonlinear_arith)
        requires
            -len <= c <= len,
            len >= 1;
    lemma_sdiv_bound(c * (SCALE as int), len, SCALE as int);
}

} // verus!
