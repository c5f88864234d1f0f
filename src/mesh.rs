//! Triangle topology of the sphere and ring meshes.
//!
//! The vertex attributes (positions, normals, texture coordinates) are
//! floating-point and computed by the renderer; the index buffers that stitch
//! the vertex grids into triangles are built and proved here. Indices are
//! 16-bit, as the draw calls use them.

use vstd::prelude::*;
use vstd::arithmetic::div_mod::lemma_fundamental_div_mod_converse;

verus! {

/// Largest number of vertices a 16-bit index can address.
pub const MAX_VERTICES: u32 = 65536;

/// Default longitude subdivisions of the planet sphere.
pub const SPHERE_SEGMENTS: u32 = 32;

/// Default latitude subdivisions of the planet sphere.
pub const SPHERE_RINGS: u32 = 24;

/// Default subdivisions of the ring annulus.
pub const RING_SEGMENTS: u32 = 64;

/// Corner `j` (0 to 5) of the two triangles of a grid quad whose upper-left
/// vertex is `a` and lower-left vertex is `b`: `(a, b, a+1)` and
/// `(a+1, b, b+1)`.
pub open spec fn quad_corner(a: int, b: int, j: int) -> int {
    if j == 0 {
        a
    } else if j == 1 {
        b
    } else if j == 2 {
        a + 1
    } else if j == 3 {
        a + 1
    } else if j == 4 {
        b
    } else {
        b + 1
    }
}

/// Vertices of a UV sphere: a grid of `rings + 1` latitude rows of
/// `segments + 1` vertices each (the seam column is doubled).
pub open spec fn spec_sphere_vertex_count(segments: int, rings: int) -> int {
    (segments + 1) * (rings + 1)
}

/// Entry `k` of the sphere index buffer: the quads are taken row by row, left
/// to right, six indices each.
pub open spec fn sphere_index(segments: int, k: int) -> int {
    let cell = k / 6;
    let a = (cell / segments) * (segments + 1) + cell % segments;
    quad_corner(a, a + segments + 1, k % 6)
}

/// Vertices of a ring annulus: an inner and an outer vertex per step, for
/// `segments + 1` steps.
pub open spec fn spec_ring_vertex_count(segments: int) -> int {
    2 * (segments + 1)
}

/// Entry `k` of the ring index buffer: segment `i` joins inner/outer vertices
/// `2i, 2i+1` to `2i+2, 2i+3` with triangles `(2i, 2i+1, 2i+2)` and
/// `(2i+1, 2i+3, 2i+2)`.
pub open spec fn ring_index(k: int) -> int {
    let base = 2 * (k / 6);
    let j = k % 6;
    if j == 0 {
        base
    } else if j == 1 {
        base + 1
    } else if j == 2 {
        base + 2
    } else if j == 3 {
        base + 1
    } else if j == 4 {
        base + 3
    } else {
        base + 2
    }
}

/// The number of vertices of a sphere with this resolution.
pub fn sphere_vertex_count(segments: u32, rings: u32) -> (r: u32)
    requires
        spec_sphere_vertex_count(segments as int, rings as int) <= MAX_VERTICES,
    ensures
        r == spec_sphere_vertex_count(segments as int, rings as int),
{
    proof {
        lemma_grid_sides_fit(segments as int, rings as int);
    }
    (segments + 1) * (rings + 1)
}

/// Both sides of a grid that fits in the index range fit there too.
proof fn lemma_grid_sides_fit(segments: int, rings: int)
    requires
        0 <= segments,
        0 <= rings,
        spec_sphere_vertex_count(segments, rings) <= MAX_VERTICES,
    ensures
        segments + 1 <= MAX_VERTICES,
        rings + 1 <= MAX_VERTICES,
{
    assert(segments + 1 <= (segments + 1) * (rings + 1)) by (nonlinear_arith)
        requires
            0 <= segments,
            0 <= rings,
    ;
    assert(rings + 1 <= (segments + 1) * (rings + 1)) by (nonlinear_arith)
        requires
            0 <= segments,
            0 <= rings,
    ;
}

/// The number of vertices of a ring with this resolution.
pub fn ring_vertex_count(segments: u32) -> (r: u32)
    requires
        spec_ring_vertex_count(segments as int) <= MAX_VERTICES,
    ensures
        r == spec_ring_vertex_count(segments as int),
{
    2 * (segments + 1)
}

/// Append the six indices of a grid quad.
fn push_quad(r: &mut Vec<u16>, a: u16, b: u16, c: u16, d: u16)
    ensures
        final(r)@ == old(r)@ + seq![a, b, c, c, b, d],
{
    r.push(a);
    r.push(b);
    r.push(c);
    r.push(c);
    r.push(b);
    r.push(d);
    assert(final(r)@ =~= old(r)@ + seq![a, b, c, c, b, d]);
}

/// The index buffer of a UV sphere with `segments` longitude and `rings`
/// latitude subdivisions: two triangles per grid quad, every index naming a
/// vertex of the grid.
pub fn sphere_indices(segments: u32, rings: u32) -> (r: Vec<u16>)
    requires
        spec_sphere_vertex_count(segments as int, rings as int) <= MAX_VERTICES,
    ensures
        r@.len() == 6 * segments * rings,
        forall|k: int| 0 <= k < r@.len() ==> #[trigger] r@[k] == sphere_index(segments as int, k),
        forall|k: int| 0 <= k < r@.len() ==> #[trigger] r@[k] < spec_sphere_vertex_count(segments as int, rings as int),
{
    let ghost s = segments as int;
    let ghost n = spec_sphere_vertex_count(segments as int, rings as int);
    proof {
        lemma_grid_sides_fit(segments as int, rings as int);
    }
    let mut r: Vec<u16> = Vec::new();
    let mut y: u32 = 0;
    while y < rings
        invariant
            y <= rings,
            n == spec_sphere_vertex_count(segments as int, rings as int),
            n <= MAX_VERTICES,
            s == segments,
            r@.len() == 6 * (y * s),
            forall|k: int| 0 <= k < r@.len() ==> #[trigger] r@[k] == sphere_index(s, k),
            forall|k: int| 0 <= k < r@.len() ==> #[trigger] r@[k] < n,
        decreases rings - y,
    {
        let mut x: u32 = 0;
        while x < segments
            invariant
                x <= segments,
                y < rings,
                n == spec_sphere_vertex_count(segments as int, rings as int),
                n <= MAX_VERTICES,
                s == segments,
                r@.len() == 6 * (y * s + x),
                forall|k: int| 0 <= k < r@.len() ==> #[trigger] r@[k] == sphere_index(s, k),
                forall|k: int| 0 <= k < r@.len() ==> #[trigger] r@[k] < n,
            decreases segments - x,
        {
            proof {
                let yy = y as int;
                let xx = x as int;
                let rr = rings as int;
                assert((yy + 1) * (s + 1) + xx + 1 < (rr + 1) * (s + 1)) by (nonlinear_arith)
                    requires
                        0 <= yy < rr,
                        0 <= xx < s,
                ;
                assert(0 <= yy * (s + 1)) by (nonlinear_arith)
                    requires
                        0 <= yy,
                        0 <= s,
                ;
                assert((yy + 1) * (s + 1) == yy * (s + 1) + s + 1) by (nonlinear_arith);
            }
            let a: u32 = y * (segments + 1) + x;
            let b: u32 = a + segments + 1;
            let ghost before = r@;
            let ghost cell = y * s + x;
            push_quad(&mut r, a as u16, b as u16, (a + 1) as u16, (b + 1) as u16);
            proof {
                assert forall|k: int| 0 <= k < r@.len() implies #[trigger] r@[k] == sphere_index(s, k) && r@[k] < n by {
                    if k >= before.len() {
                        lemma_fundamental_div_mod_converse(k, 6, cell, k - 6 * cell);
                        lemma_fundamental_div_mod_converse(cell, s, y as int, x as int);
                    } else {
                        assert(r@[k] == before[k]);
                    }
                }
                assert(r@.len() == 6 * (y * s + x + 1));
            }
            x = x + 1;
        }
        proof {
            assert(y * s + s == (y + 1) * s) by (nonlinear_arith);
        }
        y = y + 1;
    }
    proof {
        assert(6 * (rings * s) == 6 * segments * rings) by (nonlinear_arith)
            requires
                s == segments,
        ;
    }
    r
}

/// The index buffer of a ring annulus with `segments` subdivisions: two
/// triangles per segment, every index naming a vertex of the ring.
pub fn ring_indices(segments: u32) -> (r: Vec<u16>)
    requires
        spec_ring_vertex_count(segments as int) <= MAX_VERTICES,
    ensures
        r@.len() == 6 * segments,
        forall|k: int| 0 <= k < r@.len() ==> #[trigger] r@[k] == ring_index(k),
        forall|k: int| 0 <= k < r@.len() ==> #[trigger] r@[k] < spec_ring_vertex_count(segments as int),
{
    let mut r: Vec<u16> = Vec::new();
    let mut i: u32 = 0;
    while i < segments
        invariant
            i <= segments,
            spec_ring_vertex_count(segments as int) <= MAX_VERTICES,
            r@.len() == 6 * i,
            forall|k: int| 0 <= k < r@.len() ==> #[trigger] r@[k] == ring_index(k),
            forall|k: int| 0 <= k < r@.len() ==> #[trigger] r@[k] < spec_ring_vertex_count(segments as int),
        decreases segments - i,
    {
        let base: u32 = 2 * i;
        let ghost before = r@;
        r.push(base as u16);
        r.push((base + 1) as u16);
        r.push((base + 2) as u16);
        r.push((base + 1) as u16);
        r.push((base + 3) as u16);
        r.push((base + 2) as u16);
        proof {
            assert forall|k: int| 0 <= k < r@.len() implies #[trigger] r@[k] == ring_index(k) && r@[k]
                < spec_ring_vertex_count(segments as int) by {
                if k >= before.len() {
                    lemma_fundamental_div_mod_converse(k, 6, i as int, k - 6 * i);
                } else {
                    assert(r@[k] == before[k]);
                }
            }
        }
        i = i + 1;
    }
    r
}

} // verus!
