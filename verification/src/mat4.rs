//! Fixed-point 4x4 matrices, column major: the perspective projection, the
//! look-at view matrix, and their composition into the per-frame transform.

use vstd::prelude::*;
use crate::fixed::{SCALE, sdiv, div_fx, lemma_sdiv_bound};
use crate::vec3::{
    Vec3, V3, within, spec_norm_sq, spec_normalize, spec_cross, spec_scale_down, norm_sq,
    normalize, cross, scale_down, lemma_square_nonneg, COMP_LIMIT,
};
use crate::camera::POS_LIMIT;

verus! {

/// `1 / tan(45 deg / 2)`, the focal factor of the fixed 45 degree vertical
/// field of view, in fixed-point ticks.
pub const FOCAL: i64 = 2_414_214;

/// The near clip plane distance (0.1 units) in fixed-point ticks.
pub const NEAR: i64 = 100_000;

/// The far clip plane distance (100 units) in fixed-point ticks.
pub const FAR: i64 = 100_000_000;

/// Smallest accepted aspect ratio in fixed-point ticks (a window 16384
/// times as tall as wide).
pub const ASPECT_MIN: i64 = 61;

/// Largest accepted aspect ratio in fixed-point ticks.
pub const ASPECT_MAX: i64 = 16_384_000_000;

/// Bound on the entries of the projection matrix.
pub const PROJ_ENTRY_LIMIT: i64 = 50_000_000_000;

/// Bound on the entries of the view matrix.
pub const VIEW_ENTRY_LIMIT: i64 = 7_000_000_000_000;

/// Bound on a scaled four-term dot product of projection-by-view entries.
pub const DOT4_LIMIT: i64 = 1_400_000_000_000_000_000;

/// A column of a 4x4 fixed-point matrix.
#[derive(Clone, Copy, PartialEq, Eq, Structural, Debug)]
pub struct Vec4 {
    pub x: i64,
    pub y: i64,
    pub z: i64,
    pub w: i64,
}

/// The mathematical value of a `Vec4`.
pub struct V4 {
    pub x: int,
    pub y: int,
    pub z: int,
    pub w: int,
}

impl View for Vec4 {
    type V = V4;

    open spec fn view(&self) -> V4 {
        V4 { x: self.x as int, y: self.y as int, z: self.z as int, w: self.w as int }
    }
}

/// A 4x4 fixed-point matrix, stored by columns.
#[derive(Clone, Copy, PartialEq, Eq, Structural, Debug)]
pub struct Mat4 {
    pub c0: Vec4,
    pub c1: Vec4,
    pub c2: Vec4,
    pub c3: Vec4,
}

/// The mathematical value of a `Mat4`.
pub struct M4 {
    pub c0: V4,
    pub c1: V4,
    pub c2: V4,
    pub c3: V4,
}

impl View for Mat4 {
    type V = M4;

    open spec fn view(&self) -> M4 {
        M4 { c0: self.c0@, c1: self.c1@, c2: self.c2@, c3: self.c3@ }
    }
}

/// All four components within `b` of zero.
pub open spec fn within4(v: V4, b: int) -> bool {
    -b <= v.x <= b && -b <= v.y <= b && -b <= v.z <= b && -b <= v.w <= b
}

/// All sixteen entries within `b` of zero.
pub open spec fn m4_within(m: M4, b: int) -> bool {
    within4(m.c0, b) && within4(m.c1, b) && within4(m.c2, b) && within4(m.c3, b)
}

/// The perspective projection for a 45 degree vertical field of view with
/// the fixed near and far planes, as a function of the aspect ratio.
pub open spec fn spec_perspective(aspect: int) -> M4 {
    M4 {
        c0: V4 { x: sdiv((FOCAL as int) * (SCALE as int), aspect), y: 0, z: 0, w: 0 },
        c1: V4 { x: 0, y: FOCAL as int, z: 0, w: 0 },
        c2: V4 {
            x: 0,
            y: 0,
            z: -sdiv(((FAR + NEAR) as int) * (SCALE as int), (FAR - NEAR) as int),
            w: -(SCALE as int),
        },
        c3: V4 {
            x: 0,
            y: 0,
            z: -sdiv(2 * (FAR as int) * (NEAR as int), (FAR - NEAR) as int),
            w: 0,
        },
    }
}

pub fn perspective(aspect: i64) -> (m: Mat4)
    requires
        ASPECT_MIN <= aspect <= ASPECT_MAX,
    ensures
        m@ == spec_perspective(aspect as int),
        m4_within(m@, PROJ_ENTRY_LIMIT as int),
{
    proof {
        assert((PROJ_ENTRY_LIMIT as int) * (aspect as int) >= (FOCAL as int) * (SCALE as int))
            by (nonlinear_arith)
            requires
                aspect >= 61,
                PROJ_ENTRY_LIMIT == 50_000_000_000,
                FOCAL == 2_414_214,
                SCALE == 1_000_000;
        lemma_sdiv_bound((FOCAL as int) * (SCALE as int), aspect as int, PROJ_ENTRY_LIMIT as int);
        lemma_sdiv_bound(
            ((FAR + NEAR) as int) * (SCALE as int), (FAR - NEAR) as int, 2_000_000);
        lemma_sdiv_bound(2 * (FAR as int) * (NEAR as int), (FAR - NEAR) as int, 2_000_000);
    }
    let m00 = div_fx(FOCAL * SCALE, aspect);
    let m22 = -div_fx((FAR + NEAR) * SCALE, FAR - NEAR);
    let m32 = -div_fx(2 * FAR * NEAR, FAR - NEAR);
    Mat4 {
        c0: Vec4 { x: m00, y: 0, z: 0, w: 0 },
        c1: Vec4 { x: 0, y: FOCAL, z: 0, w: 0 },
        c2: Vec4 { x: 0, y: 0, z: m22, w: -SCALE },
        c3: Vec4 { x: 0, y: 0, z: m32, w: 0 },
    }
}

/// The world up direction, unit length in fixed-point ticks.
pub open spec fn spec_up() -> V3 {
    V3 { x: 0, y: SCALE as int, z: 0 }
}

/// The dot product of two vectors.
pub open spec fn spec_dot(a: V3, b: V3) -> int {
    a.x * b.x + a.y * b.y + a.z * b.z
}

/// The look-at view matrix with eye at `eye`, looking along `front`, up
/// `(0, 1, 0)`: rows are the side, up and negated forward axes, and the
/// last column carries the eye projected onto them.  `None` when the side
/// axis degenerates (looking straight up or down).
pub open spec fn spec_look_at(eye: V3, front: V3) -> Option<M4> {
    let f = spec_normalize(front);
    let sraw = spec_scale_down(spec_cross(f, spec_up()));
    if spec_norm_sq(sraw) < 1 {
        None
    } else {
        let s = spec_normalize(sraw);
        let u = spec_scale_down(spec_cross(s, f));
        Some(M4 {
            c0: V4 { x: s.x, y: u.x, z: -f.x, w: 0 },
            c1: V4 { x: s.y, y: u.y, z: -f.y, w: 0 },
            c2: V4 { x: s.z, y: u.z, z: -f.z, w: 0 },
            c3: V4 {
                x: -sdiv(spec_dot(s, eye), SCALE as int),
                y: -sdiv(spec_dot(u, eye), SCALE as int),
                z: sdiv(spec_dot(f, eye), SCALE as int),
                w: SCALE as int,
            },
        })
    }
}

/// `|x| <= cx` and `|y| <= cy` bound the product by `cx * cy`.
pub proof fn lemma_product_bound_asym(x: int, y: int, cx: int, cy: int)
    requires
        -cx <= x <= cx,
        -cy <= y <= cy,
        cx >= 0,
        cy >= 0,
    ensures
        -(cx * cy) <= x * y <= cx * cy,
{
    assert(-(cx * cy) <= x * y <= cx * cy) by (nonlinear_arith)
        requires
            -cx <= x <= cx,
            -cy <= y <= cy,
            cx >= 0,
            cy >= 0;
}

/// The dot product of an axis (components up to `COMP_LIMIT`) with a
/// position in the box.
fn dot(a: &Vec3, b: &Vec3) -> (r: i64)
    requires
        within(a@, COMP_LIMIT as int),
        within(b@, POS_LIMIT as int),
    ensures
        r == spec_dot(a@, b@),
        -(3 * (COMP_LIMIT as int) * (POS_LIMIT as int)) <= r
            <= 3 * (COMP_LIMIT as int) * (POS_LIMIT as int),
{
    proof {
        lemma_product_bound_asym(a@.x, b@.x, COMP_LIMIT as int, POS_LIMIT as int);
        lemma_product_bound_asym(a@.y, b@.y, COMP_LIMIT as int, POS_LIMIT as int);
        lemma_product_bound_asym(a@.z, b@.z, COMP_LIMIT as int, POS_LIMIT as int);
    }
    a.x * b.x + a.y * b.y + a.z * b.z
}

pub fn look_at(eye: &Vec3, front: &Vec3) -> (r: Option<Mat4>)
    requires
        within(front@, COMP_LIMIT as int),
        1 <= spec_norm_sq(front@),
        within(eye@, POS_LIMIT as int),
    ensures
        (r is Some) == (spec_look_at(eye@, front@) is Some),
        r matches Some(m) ==> {
            &&& Some(m@) == spec_look_at(eye@, front@)
            &&& m4_within(m@, VIEW_ENTRY_LIMIT as int)
        },
{
    let f = normalize(front);
    let up = Vec3 { x: 0, y: SCALE, z: 0 };
    let c = cross(&f, &up);
    proof {
        assert(c@.x == -f@.z * (SCALE as int));
        assert(c@.y == 0);
        assert(c@.z == f@.x * (SCALE as int));
        lemma_product_bound_asym(f@.z, SCALE as int, SCALE as int, SCALE as int);
        lemma_product_bound_asym(f@.x, SCALE as int, SCALE as int, SCALE as int);
        lemma_sdiv_bound(c@.x, SCALE as int, SCALE as int);
        lemma_sdiv_bound(c@.y, SCALE as int, SCALE as int);
        lemma_sdiv_bound(c@.z, SCALE as int, SCALE as int);
    }
    let sraw = scale_down(&c);
    let ns = norm_sq(&sraw);
    if ns < 1 {
        return None;
    }
    let s = normalize(&sraw);
    let cu = cross(&s, &f);
    proof {
        lemma_cross_product_bounds(s@, f@);
        lemma_sdiv_bound(spec_cross(s@, f@).x, SCALE as int, 2 * (SCALE as int));
        lemma_sdiv_bound(spec_cross(s@, f@).y, SCALE as int, 2 * (SCALE as int));
        lemma_sdiv_bound(spec_cross(s@, f@).z, SCALE as int, 2 * (SCALE as int));
    }
    let u = scale_down(&cu);
    let ds = dot(&s, eye);
    let du = dot(&u, eye);
    let df = dot(&f, eye);
    proof {
        lemma_sdiv_bound(ds as int, SCALE as int, 6_000_000_000_000);
        lemma_sdiv_bound(du as int, SCALE as int, 6_000_000_000_000);
        lemma_sdiv_bound(df as int, SCALE as int, 6_000_000_000_000);
    }
    let tx = -div_fx(ds, SCALE);
    let ty = -div_fx(du, SCALE);
    let tz = div_fx(df, SCALE);
    Some(Mat4 {
        c0: Vec4 { x: s.x, y: u.x, z: -f.x, w: 0 },
        c1: Vec4 { x: s.y, y: u.y, z: -f.y, w: 0 },
        c2: Vec4 { x: s.z, y: u.z, z: -f.z, w: 0 },
        c3: Vec4 { x: tx, y: ty, z: tz, w: SCALE },
    })
}

/// Components of a cross product of two unit-bounded vectors stay within
/// twice the square of the unit length.
proof fn lemma_cross_product_bounds(a: V3, b: V3)
    requires
        within(a, SCALE as int),
        within(b, SCALE as int),
    ensures
        within(spec_cross(a, b), 2 * (SCALE as int) * (SCALE as int)),
{
    lemma_product_bound_asym(a.y, b.z, SCALE as int, SCALE as int);
    lemma_product_bound_asym(a.z, b.y, SCALE as int, SCALE as int);
    lemma_product_bound_asym(a.z, b.x, SCALE as int, SCALE as int);
    lemma_product_bound_asym(a.x, b.z, SCALE as int, SCALE as int);
    lemma_product_bound_asym(a.x, b.y, SCALE as int, SCALE as int);
    lemma_product_bound_asym(a.y, b.x, SCALE as int, SCALE as int);
}

/// A row-by-column dot product of four terms.
pub open spec fn spec_dot4(r: V4, c: V4) -> int {
    r.x * c.x + r.y * c.y + r.z * c.z + r.w * c.w
}

/// The `i`-th row of a column-major matrix, as a `V4`.
pub open spec fn spec_row(m: M4, i: int) -> V4 {
    if i == 0 {
        V4 { x: m.c0.x, y: m.c1.x, z: m.c2.x, w: m.c3.x }
    } else if i == 1 {
        V4 { x: m.c0.y, y: m.c1.y, z: m.c2.y, w: m.c3.y }
    } else if i == 2 {
        V4 { x: m.c0.z, y: m.c1.z, z: m.c2.z, w: m.c3.z }
    } else {
        V4 { x: m.c0.w, y: m.c1.w, z: m.c2.w, w: m.c3.w }
    }
}

/// The matrix product, each entry divided by `SCALE` to drop the extra
/// fixed-point factor.
pub open spec fn spec_mat_mul(a: M4, b: M4) -> M4 {
    M4 {
        c0: V4 {
            x: sdiv(spec_dot4(spec_row(a, 0), b.c0), SCALE as int),
            y: sdiv(spec_dot4(spec_row(a, 1), b.c0), SCALE as int),
            z: sdiv(spec_dot4(spec_row(a, 2), b.c0), SCALE as int),
            w: sdiv(spec_dot4(spec_row(a, 3), b.c0), SCALE as int),
        },
        c1: V4 {
            x: sdiv(spec_dot4(spec_row(a, 0), b.c1), SCALE as int),
            y: sdiv(spec_dot4(spec_row(a, 1), b.c1), SCALE as int),
            z: sdiv(spec_dot4(spec_row(a, 2), b.c1), SCALE as int),
            w: sdiv(spec_dot4(spec_row(a, 3), b.c1), SCALE as int),
        },
        c2: V4 {
            x: sdiv(spec_dot4(spec_row(a, 0), b.c2), SCALE as int),
            y: sdiv(spec_dot4(spec_row(a, 1), b.c2), SCALE as int),
            z: sdiv(spec_dot4(spec_row(a, 2), b.c2), SCALE as int),
            w: sdiv(spec_dot4(spec_row(a, 3), b.c2), SCALE as int),
        },
        c3: V4 {
            x: sdiv(spec_dot4(spec_row(a, 0), b.c3), SCALE as int),
            y: sdiv(spec_dot4(spec_row(a, 1), b.c3), SCALE as int),
            z: sdiv(spec_dot4(spec_row(a, 2), b.c3), SCALE as int),
            w: sdiv(spec_dot4(spec_row(a, 3), b.c3), SCALE as int),
        },
    }
}

/// One scaled row-by-column product, computed in 128-bit intermediates.
fn dot4_scaled(r: &Vec4, c: &Vec4) -> (out: i64)
    requires
        within4(r@, PROJ_ENTRY_LIMIT as int),
        within4(c@, VIEW_ENTRY_LIMIT as int),
    ensures
        out == sdiv(spec_dot4(r@, c@), SCALE as int),
        -DOT4_LIMIT <= out <= DOT4_LIMIT,
{
    proof {
        lemma_product_bound_asym(r@.x, c@.x, PROJ_ENTRY_LIMIT as int, VIEW_ENTRY_LIMIT as int);
        lemma_product_bound_asym(r@.y, c@.y, PROJ_ENTRY_LIMIT as int, VIEW_ENTRY_LIMIT as int);
        lemma_product_bound_asym(r@.z, c@.z, PROJ_ENTRY_LIMIT as int, VIEW_ENTRY_LIMIT as int);
        lemma_product_bound_asym(r@.w, c@.w, PROJ_ENTRY_LIMIT as int, VIEW_ENTRY_LIMIT as int);
    }
    let sum: i128 = (r.x as i128) * (c.x as i128) + (r.y as i128) * (c.y as i128)
        + (r.z as i128) * (c.z as i128) + (r.w as i128) * (c.w as i128);
    let q = sum.checked_div(SCALE as i128);
    proof {
        lemma_sdiv_bound(sum as int, SCALE as int, DOT4_LIMIT as int);
    }
    q.unwrap() as i64
}

/// The product of the projection and view matrices: the per-frame
/// view-projection transform.
pub fn mat_mul(a: &Mat4, b: &Mat4) -> (m: Mat4)
    requires
        m4_within(a@, PROJ_ENTRY_LIMIT as int),
        m4_within(b@, VIEW_ENTRY_LIMIT as int),
    ensures
        m@ == spec_mat_mul(a@, b@),
{
    let r0 = Vec4 { x: a.c0.x, y: a.c1.x, z: a.c2.x, w: a.c3.x };
    let r1 = Vec4 { x: a.c0.y, y: a.c1.y, z: a.c2.y, w: a.c3.y };
    let r2 = Vec4 { x: a.c0.z, y: a.c1.z, z: a.c2.z, w: a.c3.z };
    let r3 = Vec4 { x: a.c0.w, y: a.c1.w, z: a.c2.w, w: a.c3.w };
    Mat4 {
        c0: Vec4 {
            x: dot4_scaled(&r0, &a_col(b, 0)),
            y: dot4_scaled(&r1, &a_col(b, 0)),
            z: dot4_scaled(&r2, &a_col(b, 0)),
            w: dot4_scaled(&r3, &a_col(b, 0)),
        },
        c1: Vec4 {
            x: dot4_scaled(&r0, &a_col(b, 1)),
            y: dot4_scaled(&r1, &a_col(b, 1)),
            z: dot4_scaled(&r2, &a_col(b, 1)),
            w: dot4_scaled(&r3, &a_col(b, 1)),
        },
        c2: Vec4 {
            x: dot4_scaled(&r0, &a_col(b, 2)),
            y: dot4_scaled(&r1, &a_col(b, 2)),
            z: dot4_scaled(&r2, &a_col(b, 2)),
            w: dot4_scaled(&r3, &a_col(b, 2)),
        },
        c3: Vec4 {
            x: dot4_scaled(&r0, &a_col(b, 3)),
            y: dot4_scaled(&r1, &a_col(b, 3)),
            z: dot4_scaled(&r2, &a_col(b, 3)),
            w: dot4_scaled(&r3, &a_col(b, 3)),
        },
    }
}

/// Select a column of a matrix by index.
fn a_col(m: &Mat4, i: u8) -> (c: Vec4)
    requires
        i < 4,
    ensures
        i == 0 ==> c == m.c0,
        i == 1 ==> c == m.c1,
        i == 2 ==> c == m.c2,
        i == 3 ==> c == m.c3,
{
    if i == 0 {
        m.c0
    } else if i == 1 {
        m.c1
    } else if i == 2 {
        m.c2
    } else {
        m.c3
    }
}

} // verus!
