//! The static cube mesh: 24 vertices with per-face texture coordinates and
//! 36 indices, two triangles for each of the six faces.

use vstd::prelude::*;
use crate::fixed::SCALE;
use crate::mat4::Vec4;

verus! {

/// A texture coordinate pair in fixed-point ticks.
#[derive(Clone, Copy, PartialEq, Eq, Structural, Debug)]
pub struct TexCoord {
    pub u: i64,
    pub v: i64,
}

/// One mesh vertex: a homogeneous position and a texture coordinate, in
/// fixed-point ticks.
#[derive(Clone, Copy, PartialEq, Eq, Structural, Debug)]
pub struct Vertex {
    pub pos: Vec4,
    pub tex_coord: TexCoord,
}

impl Vertex {
    /// Build a vertex from small integer corner coordinates, scaling them
    /// to fixed point and appending the unit homogeneous coordinate.
    pub fn new(p: [i8; 3], t: [i8; 2]) -> (r: Vertex)
        ensures
            r.pos.x == p[0] as int * SCALE,
            r.pos.y == p[1] as int * SCALE,
            r.pos.z == p[2] as int * SCALE,
            r.pos.w == SCALE,
            r.tex_coord.u == t[0] as int * SCALE,
            r.tex_coord.v == t[1] as int * SCALE,
    {
        Vertex {
            pos: Vec4 {
                x: (p[0] as i64) * SCALE,
                y: (p[1] as i64) * SCALE,
                z: (p[2] as i64) * SCALE,
                w: SCALE,
            },
            tex_coord: TexCoord { u: (t[0] as i64) * SCALE, v: (t[1] as i64) * SCALE },
        }
    }
}

/// The index of the cube corner used at position `k` of the index buffer:
/// face `k / 6`, and within the face the two triangles `0 1 2` and
/// `2 3 0` over that face's four vertices.
pub open spec fn spec_cube_index(k: int) -> int {
    let f = k / 6;
    let r = k % 6;
    4 * f + if r == 0 {
        0int
    } else if r == 1 {
        1int
    } else if r == 2 {
        2int
    } else if r == 3 {
        2int
    } else if r == 4 {
        3int
    } else {
        0int
    }
}

/// Every index of the cube's index buffer names one of its 24 vertices.
pub proof fn lemma_cube_index_range(k: int)
    requires
        0 <= k < 36,
    ensures
        0 <= spec_cube_index(k) < 24,
{
    vstd::arithmetic::div_mod::lemma_fundamental_div_mod(k, 6);
    vstd::arithmetic::div_mod::lemma_mod_bound(k, 6);
    assert(0 <= k / 6 < 6) by {
        vstd::arithmetic::div_mod::lemma_div_pos_is_pos(k, 6);
        if k / 6 >= 6 {
            assert(k == 6 * (k / 6) + k % 6);
        }
    }
}

/// The cube's index buffer: for each face the triangles `0 1 2` and
/// `2 3 0` over the face's four corners.
pub fn cube_indices() -> (v: Vec<u16>)
    ensures
        v@.len() == 36,
        forall|k: int| 0 <= k < 36 ==> v@[k] == spec_cube_index(k),
        forall|k: int| 0 <= k < 36 ==> 0 <= #[trigger] v@[k] < 24,
{
    let mut v: Vec<u16> = Vec::new();
    let mut f: u16 = 0;
    while f < 6
        invariant
            f <= 6,
            v@.len() == 6 * f,
            forall|k: int| 0 <= k < 6 * f ==> v@[k] == spec_cube_index(k),
        decreases 6 - f,
    {
        let base = 4 * f;
        v.push(base);
        v.push(base + 1);
        v.push(base + 2);
        v.push(base + 2);
        v.push(base + 3);
        v.push(base);
        proof {
            assert forall|r: int| 0 <= r < 6 implies
                #[trigger] spec_cube_index(6 * (f as int) + r) == v@[6 * (f as int) + r] by {
                vstd::arithmetic::div_mod::lemma_fundamental_div_mod_converse(
                    6 * (f as int) + r, 6, f as int, r);
            }
        }
        f = f + 1;
    }
    proof {
        assert forall|k: int| 0 <= k < 36 implies 0 <= #[trigger] v@[k] < 24 by {
            lemma_cube_index_range(k);
        }
    }
    v
}

/// The corner and texture data of the cube's 24 vertices, four for each
/// face, in the order top, bottom, right, left, front, back.
pub open spec fn spec_cube_vertex(i: int) -> Vertex {
    let s = SCALE as int;
    let (p, t): ((int, int, int), (int, int)) = if i == 0 {
        ((-1, -1, 1), (0, 0))
    } else if i == 1 {
        ((1, -1, 1), (1, 0))
    } else if i == 2 {
        ((1, 1, 1), (1, 1))
    } else if i == 3 {
        ((-1, 1, 1), (0, 1))
    } else if i == 4 {
        ((-1, 1, -1), (1, 0))
    } else if i == 5 {
        ((1, 1, -1), (0, 0))
    } else if i == 6 {
        ((1, -1, -1), (0, 1))
    } else if i == 7 {
        ((-1, -1, -1), (1, 1))
    } else if i == 8 {
        ((1, -1, -1), (0, 0))
    } else if i == 9 {
        ((1, 1, -1), (1, 0))
    } else if i == 10 {
        ((1, 1, 1), (1, 1))
    } else if i == 11 {
        ((1, -1, 1), (0, 1))
    } else if i == 12 {
        ((-1, -1, 1), (1, 0))
    } else if i == 13 {
        ((-1, 1, 1), (0, 0))
    } else if i == 14 {
        ((-1, 1, -1), (0, 1))
    } else if i == 15 {
        ((-1, -1, -1), (1, 1))
    } else if i == 16 {
        ((1, 1, -1), (1, 0))
    } else if i == 17 {
        ((-1, 1, -1), (0, 0))
    } else if i == 18 {
        ((-1, 1, 1), (0, 1))
    } else if i == 19 {
        ((1, 1, 1), (1, 1))
    } else if i == 20 {
        ((1, -1, 1), (0, 0))
    } else if i == 21 {
        ((-1, -1, 1), (1, 0))
    } else if i == 22 {
        ((-1, -1, -1), (1, 1))
    } else {
        ((1, -1, -1), (0, 1))
    };
    Vertex {
        pos: Vec4 {
            x: (p.0 * s) as i64,
            y: (p.1 * s) as i64,
            z: (p.2 * s) as i64,
            w: s as i64,
        },
        tex_coord: TexCoord { u: (t.0 * s) as i64, v: (t.1 * s) as i64 },
    }
}

/// The cube's vertex buffer.
pub fn cube_vertices() -> (v: Vec<Vertex>)
    ensures
        v@.len() == 24,
        forall|i: int| 0 <= i < 24 ==> v@[i] == spec_cube_vertex(i),
{
    let mut v: Vec<Vertex> = Vec::new();
    v.push(Vertex::new([-1, -1, 1], [0, 0]));
    v.push(Vertex::new([1, -1, 1], [1, 0]));
    v.push(Vertex::new([1, 1, 1], [1, 1]));
    v.push(Vertex::new([-1, 1, 1], [0, 1]));
    v.push(Vertex::new([-1, 1, -1], [1, 0]));
    v.push(Vertex::new([1, 1, -1], [0, 0]));
    v.push(Vertex::new([1, -1, -1], [0, 1]));
    v.push(Vertex::new([-1, -1, -1], [1, 1]));
    v.push(Vertex::new([1, -1, -1], [0, 0]));
    v.push(Vertex::new([1, 1, -1], [1, 0]));
    v.push(Vertex::new([1, 1, 1], [1, 1]));
    v.push(Vertex::new([1, -1, 1], [0, 1]));
    v.push(Vertex::new([-1, -1, 1], [1, 0]));
    v.push(Vertex::new([-1, 1, 1], [0, 0]));
    v.push(Vertex::new([-1, 1, -1], [0, 1]));
    v.push(Vertex::new([-1, -1, -1], [1, 1]));
    v.push(Vertex::new([1, 1, -1], [1, 0]));
    v.push(Vertex::new([-1, 1, -1], [0, 0]));
    v.push(Vertex::new([-1, 1, 1], [0, 1]));
    v.push(Vertex::new([1, 1, 1], [1, 1]));
    v.push(Vertex::new([1, -1, 1], [0, 0]));
    v.push(Vertex::new([-1, -1, 1], [1, 0]));
    v.push(Vertex::new([-1, -1, -1], [1, 1]));
    v.push(Vertex::new([1, -1, -1], [0, 1]));
    v
}

} // verus!
