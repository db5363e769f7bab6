//! Fixed-point scalar helpers: truncating division, integer square root,
//! and reduction of angles into one full turn.

use vstd::prelude::*;

verus! {

/// One unit of distance (and the unit length of direction vectors),
/// expressed in fixed-point ticks: values are scaled by a million.
pub const SCALE: i64 = 1_000_000;

/// A full turn in micro-degrees.
pub const FULL_TURN: i64 = 360_000_000;

/// Truncating (round toward zero) division, the behaviour of `/` on the
/// machine integers, stated over mathematical integers.  `b` must be positive.
pub open spec fn sdiv(a: int, b: int) -> int
    recommends
        b >= 1,
{
    if a >= 0 {
        a / b
    } else {
        -((-a) / b)
    }
}

/// Truncating division of fixed-point scalars.
pub fn div_fx(a: i64, b: i64) -> (r: i64)
    requires
        1 <= b,
    ensures
        r == sdiv(a as int, b as int),
{
    let r = a.checked_div(b);
    proof {
        assert(r.is_some()) by {
            assert(a < 0 ==> -((-(a as int)) / (b as int)) >= a) by (nonlinear_arith)
                requires b >= 1;
            assert(a >= 0 ==> (a as int) / (b as int) <= a) by (nonlinear_arith)
                requires b >= 1;
        }
    }
    r.unwrap()
}

/// A magnitude bound on truncating division: if `|a| <= c * b` then
/// `|sdiv(a, b)| <= c`.
pub proof fn lemma_sdiv_bound(a: int, b: int, c: int)
    requires
        b >= 1,
        c >= 0,
        -(c * b) <= a <= c * b,
    ensures
        -c <= sdiv(a, b) <= c,
{
    vstd::arithmetic::div_mod::lemma_div_multiples_vanish(c, b);
    assert(c * b == b * c) by (nonlinear_arith);
    if a >= 0 {
        vstd::arithmetic::div_mod::lemma_div_is_ordered(a, c * b, b);
        vstd::arithmetic::div_mod::lemma_div_pos_is_pos(a, b);
    } else {
        vstd::arithmetic::div_mod::lemma_div_is_ordered(-a, c * b, b);
        vstd::arithmetic::div_mod::lemma_div_pos_is_pos(-a, b);
    }
}

/// The floor of the square root, as a recursive definition.
pub open spec fn isqrt_spec(n: nat) -> nat
    decreases n,
{
    if n == 0 {
        0
    } else {
        let r = isqrt_spec((n - 1) as nat);
        if (r + 1) * (r + 1) <= n {
            r + 1
        } else {
            r
        }
    }
}

/// `isqrt_spec` is the unique value whose square brackets its argument.
pub proof fn lemma_isqrt_spec_bounds(n: nat)
    ensures
        isqrt_spec(n) * isqrt_spec(n) <= n,
        n < (isqrt_spec(n) + 1) * (isqrt_spec(n) + 1),
    decreases n,
{
    let s = isqrt_spec(n);
    if n > 0 {
        lemma_isqrt_spec_bounds((n - 1) as nat);
        let r = isqrt_spec((n - 1) as nat);
        if (r + 1) * (r + 1) <= n {
            assert(s == r + 1);
            assert(s * s <= n && n < (s + 1) * (s + 1)) by (nonlinear_arith)
                requires
                    (r + 1) * (r + 1) <= n,
                    n <= (r + 1) * (r + 1),
                    s == r + 1,
                    r >= 0;
        } else {
            assert(s == r);
            assert(s * s <= n && n < (s + 1) * (s + 1)) by (nonlinear_arith)
                requires
                    r * r <= n - 1,
                    n < (r + 1) * (r + 1),
                    s == r,
                    r >= 0;
        }
    } else {
        assert(s == 0);
        assert(s * s <= n && n < (s + 1) * (s + 1)) by (nonlinear_arith)
            requires
                s == 0,
                n == 0;
    }
}

/// Two square roots that both bracket `n` are equal.
pub proof fn lemma_isqrt_unique(n: nat, r: nat)
    requires
        r * r <= n,
        n < (r + 1) * (r + 1),
    ensures
        r == isqrt_spec(n),
{
    lemma_isqrt_spec_bounds(n);
    let s = isqrt_spec(n);
    assert(r == s) by (nonlinear_arith)
        requires
            r * r <= n,
            n < (r + 1) * (r + 1),
            s * s <= n,
            n < (s + 1) * (s + 1);
}

/// Floor of the square root, by bisection.  The bound on `n` keeps the
/// squares taken inside the search within the machine range.
pub fn isqrt(n: u64) -> (r: u64)
    requires
        n < 0x1_0000_0000_0000,
    ensures
        r == isqrt_spec(n as nat),
        r * r <= n,
        n < (r + 1) * (r + 1),
{
    let mut lo: u64 = 0;
    let mut hi: u64 = 0x100_0000;
    proof {
        assert((0x100_0000u64 as int) * (0x100_0000u64 as int) > n);
    }
    while lo + 1 < hi
        invariant
            lo < hi,
            hi <= 0x100_0000,
            lo * lo <= n,
            n < hi * hi,
        decreases hi - lo,
    {
        let mid = lo + (hi - lo) / 2;
        proof {
            assert(mid * mid <= 0x100_0000 * 0x100_0000) by (nonlinear_arith)
                requires 0 <= mid <= 0x100_0000;
        }
        if mid * mid <= n {
            lo = mid;
        } else {
            hi = mid;
        }
    }
    proof {
        lemma_isqrt_unique(n as nat, lo as nat);
    }
    lo
}

/// Reduce an angle in micro-degrees to `[0, FULL_TURN)`; this is the
/// mathematical (Euclidean) remainder by a full turn.
pub fn wrap_angle(a: i64) -> (r: i64)
    ensures
        r == (a as int) % (FULL_TURN as int),
        0 <= r < FULL_TURN,
{
    proof {
        vstd::arithmetic::div_mod::lemma_mod_bound(a as int, FULL_TURN as int);
    }
    a.checked_rem_euclid(FULL_TURN).unwrap()
}

} // verus!
