//! Cube classification, exact edge interpolation, and per-cube triangle
//! emission.
//!
//! One cube of 8 samples is classified into an 8-bit case index (bit `k`
//! set when corner `k` lies strictly below the iso-level). The crossed
//! edges of the case are interpolated exactly — the crossing point of an
//! edge is a rational function of the two endpoint samples — and the
//! triangulation row of the case is walked in triples to emit triangles.

use vstd::prelude::*;

use crate::geometry::Corner;
use crate::geometry::Point3;
use crate::geometry::Rat;
use crate::geometry::Triangle;
use crate::geometry::Vertex;
use crate::tables::edge_corners;
use crate::tables::edge_mask;
use crate::tables::entry_listed;
use crate::tables::spec_edge_corner;
use crate::tables::spec_edge_listed;
use crate::tables::spec_entry_ok;
use crate::tables::spec_edge_mask;
use crate::tables::spec_row_len;
use crate::tables::spec_row_ok;
use crate::tables::spec_triangle_edge;
use crate::tables::triangle_edge;

verus! {

/// Why surface extraction or polygonization failed.
#[derive(Clone, Copy, PartialEq, Eq, Structural, Debug)]
pub enum MeshError {
    /// The requested grid is too small to contain one cube.
    InvalidConfiguration,
    /// The scalar field does not provide one sample per lattice point.
    SampleUnavailable,
    /// A triangulation row references an edge that its case's edge mask
    /// does not list; indicates corrupted constant tables, never expected.
    TableInconsistency,
}

/// Strict classification: a sample counts as inside the surface exactly
/// when its value lies strictly below the iso-level. Ties are outside.
pub open spec fn spec_below(value: i32, iso: i32) -> bool {
    value < iso
}

/// 1 when corner `k` of the cube is below the iso-level, else 0.
pub open spec fn spec_corner_bit(g: Seq<Corner>, iso: i32, k: int) -> int {
    if spec_below(g[k].value, iso) {
        1
    } else {
        0
    }
}

/// The 8-bit case index of a cube: bit `k` set when corner `k` is below
/// the iso-level.
pub open spec fn spec_cube_index(g: Seq<Corner>, iso: i32) -> u8 {
    (spec_corner_bit(g, iso, 0) + 2 * spec_corner_bit(g, iso, 1) + 4 * spec_corner_bit(g, iso, 2)
        + 8 * spec_corner_bit(g, iso, 3) + 16 * spec_corner_bit(g, iso, 4) + 32 * spec_corner_bit(
        g,
        iso,
        5,
    ) + 64 * spec_corner_bit(g, iso, 6) + 128 * spec_corner_bit(g, iso, 7)) as u8
}

/// The numerator of the interpolated coordinate along one axis:
/// `pa + (iso - va) / (vb - va) * (pb - pa)` over the denominator
/// `vb - va`.
pub open spec fn spec_interp_num(pa: int, pb: int, va: int, vb: int, iso: int) -> int {
    pa * (vb - iso) + pb * (iso - va)
}

/// A rational from a numerator and a nonzero denominator, with the sign
/// moved into the numerator so the denominator is positive.
pub open spec fn spec_rat_normalized(num: int, den: int) -> Rat {
    if den >= 0 {
        Rat { num: num as i128, den: den as i128 }
    } else {
        Rat { num: (-num) as i128, den: (-den) as i128 }
    }
}

/// The exact interpolated coordinate along one axis.
pub open spec fn spec_axis_interpolation(pa: int, pb: int, va: int, vb: int, iso: int) -> Rat {
    spec_rat_normalized(spec_interp_num(pa, pb, va, vb, iso), vb - va)
}

/// Where the isosurface crosses the edge from sample `a` to sample `b`.
///
/// Degenerate cases return an endpoint instead of dividing by zero: a
/// sample that equals the iso-level exactly is the crossing point itself
/// (`a` checked first), and an edge with equal samples answers with `a`'s
/// position.
pub open spec fn spec_interpolate(a: Corner, b: Corner, iso: i32) -> Vertex {
    if a.value == iso {
        Vertex::spec_at_point(a.position)
    } else if b.value == iso {
        Vertex::spec_at_point(b.position)
    } else if a.value == b.value {
        Vertex::spec_at_point(a.position)
    } else {
        Vertex {
            x: spec_axis_interpolation(
                a.position.x as int,
                b.position.x as int,
                a.value as int,
                b.value as int,
                iso as int,
            ),
            y: spec_axis_interpolation(
                a.position.y as int,
                b.position.y as int,
                a.value as int,
                b.value as int,
                iso as int,
            ),
            z: spec_axis_interpolation(
                a.position.z as int,
                b.position.z as int,
                a.value as int,
                b.value as int,
                iso as int,
            ),
        }
    }
}

/// The vertex of the cube `g` sitting on edge `e`.
pub open spec fn spec_cube_vertex(g: Seq<Corner>, iso: i32, e: int) -> Vertex {
    spec_interpolate(g[spec_edge_corner(e, 0)], g[spec_edge_corner(e, 1)], iso)
}

/// The triangles emitted for case `index` of cube `g`, walking the
/// triangulation row from entry `i` in triples up to the sentinel.
pub open spec fn spec_triangles_from(g: Seq<Corner>, iso: i32, index: int, i: int) -> Seq<Triangle>
    decreases 16 - i,
{
    if i < 0 || i + 3 > 16 || spec_triangle_edge(index, i) == -1 {
        Seq::empty()
    } else {
        seq![
            Triangle {
                vertex_1: spec_cube_vertex(g, iso, spec_triangle_edge(index, i) as int),
                vertex_2: spec_cube_vertex(g, iso, spec_triangle_edge(index, i + 1) as int),
                vertex_3: spec_cube_vertex(g, iso, spec_triangle_edge(index, i + 2) as int),
            },
        ] + spec_triangles_from(g, iso, index, i + 3)
    }
}

/// The full triangle list of one cube: empty for the uniform cases 0 and
/// 255, else the triangulation row of the case, one triangle per triple.
pub open spec fn spec_polygonize(g: Seq<Corner>, iso: i32) -> Seq<Triangle> {
    let index = spec_cube_index(g, iso) as int;
    if index == 0 || index == 255 {
        Seq::empty()
    } else {
        spec_triangles_from(g, iso, index, 0)
    }
}

/// Polygonization of a cube with case `index` succeeds exactly when the
/// case is uniform (no geometry) or its triangulation row is well formed.
pub open spec fn spec_case_ok(index: int) -> bool {
    index == 0 || index == 255 || spec_row_ok(index, 0)
}

/// The per-cube classifier and polygonizer, configured with the
/// iso-level that defines the surface.
pub struct MarchingCubes {
    pub iso_surface: i32,
}

/// Bounds the magnitude of a product from bounds on its factors.
proof fn lemma_mul_bound(x: int, y: int, bx: int, by: int)
    by (nonlinear_arith)
    requires
        -bx <= x <= bx,
        -by <= y <= by,
    ensures
        -(bx * by) <= x * y <= bx * by,
{
}

/// Builds the vertex that sits exactly on the lattice point `p`.
fn vertex_at(p: &Point3) -> (v: Vertex)
    ensures
        v == Vertex::spec_at_point(*p),
{
    Vertex { x: Rat::from_int(p.x), y: Rat::from_int(p.y), z: Rat::from_int(p.z) }
}

impl MarchingCubes {
    /// Creates an extractor for the given iso-level.
    pub fn new(iso_surface: i32) -> (r: Self)
        ensures
            r.iso_surface == iso_surface,
    {
        Self { iso_surface }
    }

    /// Classifies a cube: bit `k` of the result is set exactly when
    /// corner `k`'s value lies strictly below the iso-level.
    pub fn classify(&self, grid: &[Corner; 8]) -> (r: u8)
        ensures
            r == spec_cube_index(grid@, self.iso_surface),
    {
        let mut index: u8 = 0;
        if grid[0].value < self.iso_surface {
            index = index + 1;
        }
        if grid[1].value < self.iso_surface {
            index = index + 2;
        }
        if grid[2].value < self.iso_surface {
            index = index + 4;
        }
        if grid[3].value < self.iso_surface {
            index = index + 8;
        }
        if grid[4].value < self.iso_surface {
            index = index + 16;
        }
        if grid[5].value < self.iso_surface {
            index = index + 32;
        }
        if grid[6].value < self.iso_surface {
            index = index + 64;
        }
        if grid[7].value < self.iso_surface {
            index = index + 128;
        }
        index
    }

    /// Computes the exact crossing point of the isosurface on the edge
    /// from sample `a` to sample `b` (an endpoint in the degenerate
    /// cases).
    pub fn interpolate_vertex(&self, a: &Corner, b: &Corner) -> (v: Vertex)
        ensures
            v == spec_interpolate(*a, *b, self.iso_surface),
            v.wf(),
    {
        let iso = self.iso_surface;
        if a.value == iso {
            return vertex_at(&a.position);
        }
        if b.value == iso {
            return vertex_at(&b.position);
        }
        if a.value == b.value {
            return vertex_at(&a.position);
        }
        let av = a.value as i128;
        let bv = b.value as i128;
        let isov = iso as i128;
        let bi = bv - isov;
        let ia = isov - av;
        let den = bv - av;
        proof {
            lemma_mul_bound(a.position.x as int, bi as int, 0x8000_0000_0000_0000, 0x1_0000_0000);
            lemma_mul_bound(b.position.x as int, ia as int, 0x8000_0000_0000_0000, 0x1_0000_0000);
            lemma_mul_bound(a.position.y as int, bi as int, 0x8000_0000_0000_0000, 0x1_0000_0000);
            lemma_mul_bound(b.position.y as int, ia as int, 0x8000_0000_0000_0000, 0x1_0000_0000);
            lemma_mul_bound(a.position.z as int, bi as int, 0x8000_0000_0000_0000, 0x1_0000_0000);
            lemma_mul_bound(b.position.z as int, ia as int, 0x8000_0000_0000_0000, 0x1_0000_0000);
        }
        let nx = (a.position.x as i128) * bi + (b.position.x as i128) * ia;
        let ny = (a.position.y as i128) * bi + (b.position.y as i128) * ia;
        let nz = (a.position.z as i128) * bi + (b.position.z as i128) * ia;
        if den < 0 {
            Vertex {
                x: Rat { num: -nx, den: -den },
                y: Rat { num: -ny, den: -den },
                z: Rat { num: -nz, den: -den },
            }
        } else {
            Vertex {
                x: Rat { num: nx, den },
                y: Rat { num: ny, den },
                z: Rat { num: nz, den },
            }
        }
    }

    /// Emits the triangles of one cube: classifies it, interpolates the
    /// crossed edges, and walks the case's triangulation row in triples.
    ///
    /// Fails (with `TableInconsistency`, never expected of the shipped
    /// tables) exactly when the case's row is malformed; otherwise the
    /// returned list is the case's triangle list in table order.
    pub fn polygonize(&self, grid: [Corner; 8]) -> (r: Result<Vec<Triangle>, MeshError>)
        ensures
            r.is_ok() == spec_case_ok(spec_cube_index(grid@, self.iso_surface) as int),
            match r {
                Ok(tris) => tris@ == spec_polygonize(grid@, self.iso_surface),
                Err(e) => e == MeshError::TableInconsistency,
            },
    {
        let iso = self.iso_surface;
        let index = self.classify(&grid);
        if index == 0 || index == 255 {
            let tris: Vec<Triangle> = Vec::new();
            assert(tris@ =~= spec_polygonize(grid@, iso));
            return Ok(tris);
        }
        let mask = edge_mask(index);
        let mut verts: Vec<Option<Vertex>> = Vec::new();
        let mut e: u8 = 0;
        while e < 12
            invariant
                e <= 12,
                verts@.len() == e as int,
                iso == self.iso_surface,
                mask == spec_edge_mask(index as int),
                forall|j: int|
                    0 <= j < e ==> #[trigger] verts@[j] == (if spec_edge_listed(index as int, j) {
                        Some(spec_cube_vertex(grid@, iso, j))
                    } else {
                        None::<Vertex>
                    }),
            decreases 12 - e,
        {
            if (mask >> (e as u16)) & 1 == 1 {
                let pair = edge_corners(e);
                let v = self.interpolate_vertex(&grid[pair[0] as usize], &grid[pair[1] as usize]);
                assert(v == spec_cube_vertex(grid@, iso, e as int));
                verts.push(Some(v));
            } else {
                verts.push(None);
            }
            e = e + 1;
        }
        let mut tris: Vec<Triangle> = Vec::new();
        let mut i: usize = 0;
        while i + 3 <= 16
            invariant
                i % 3 == 0,
                i <= 15,
                verts@.len() == 12,
                mask == spec_edge_mask(index as int),
                index == spec_cube_index(grid@, iso),
                index != 0 && index != 255,
                iso == self.iso_surface,
                forall|j: int|
                    0 <= j < 12 ==> #[trigger] verts@[j] == (if spec_edge_listed(index as int, j) {
                        Some(spec_cube_vertex(grid@, iso, j))
                    } else {
                        None::<Vertex>
                    }),
                spec_row_ok(index as int, 0) == spec_row_ok(index as int, i as int),
                spec_triangles_from(grid@, iso, index as int, 0) == tris@ + spec_triangles_from(
                    grid@,
                    iso,
                    index as int,
                    i as int,
                ),
            decreases 16 - i,
        {
            let t0 = triangle_edge(index, i);
            if t0 == -1 {
                assert(spec_triangles_from(grid@, iso, index as int, i as int)
                    =~= Seq::<Triangle>::empty());
                assert(tris@ =~= tris@ + Seq::<Triangle>::empty());
                return Ok(tris);
            }
            let t1 = triangle_edge(index, i + 1);
            let t2 = triangle_edge(index, i + 2);
            if !(entry_listed(mask, t0) && entry_listed(mask, t1) && entry_listed(mask, t2)) {
                return Err(MeshError::TableInconsistency);
            }
            let v1 = verts[t0 as usize].unwrap();
            let v2 = verts[t1 as usize].unwrap();
            let v3 = verts[t2 as usize].unwrap();
            let tri = Triangle { vertex_1: v1, vertex_2: v2, vertex_3: v3 };
            tris.push(tri);
            proof {
                assert(spec_triangles_from(grid@, iso, index as int, i as int) =~= seq![tri]
                    + spec_triangles_from(grid@, iso, index as int, i as int + 3));
                assert(tris@ + spec_triangles_from(grid@, iso, index as int, i as int + 3)
                    =~= spec_triangles_from(grid@, iso, index as int, 0));
            }
            i = i + 3;
        }
        let t = triangle_edge(index, 15);
        if t == -1 {
            assert(spec_triangles_from(grid@, iso, index as int, 15) =~= Seq::<Triangle>::empty());
            assert(tris@ =~= tris@ + Seq::<Triangle>::empty());
            Ok(tris)
        } else {
            Err(MeshError::TableInconsistency)
        }
    }
}

/// A uniform case emits nothing: when every corner classifies the same
/// way (case 0 or 255), polygonization is the empty triangle list.
pub proof fn lemma_uniform_case_empty(g: Seq<Corner>, iso: i32)
    requires
        spec_cube_index(g, iso) == 0 || spec_cube_index(g, iso) == 255,
    ensures
        spec_polygonize(g, iso) == Seq::<Triangle>::empty(),
{
}

/// Classification is purely comparative, not magnitude-dependent: a cube
/// whose corners all carry one value `c != iso` classifies as 255 (all
/// below) or 0 (all above) and emits no geometry, whatever `c` is.
pub proof fn lemma_constant_cube_empty(g: Seq<Corner>, iso: i32, c: i32)
    requires
        g.len() == 8,
        forall|k: int| 0 <= k < 8 ==> g[k].value == c,
        c != iso,
    ensures
        spec_cube_index(g, iso) == if c < iso {
            255u8
        } else {
            0u8
        },
        spec_polygonize(g, iso) == Seq::<Triangle>::empty(),
{
}

/// Counts triangles against row entries, from entry `i` on: a well-formed
/// row tail yields one triangle per three entries, and at most as many
/// entries as fit before slot 16.
proof fn lemma_triangles_count_from(g: Seq<Corner>, iso: i32, index: int, i: int)
    requires
        spec_row_ok(index, i),
        0 <= i <= 16,
    ensures
        3 * spec_triangles_from(g, iso, index, i).len() == spec_row_len(index, i),
        3 * spec_triangles_from(g, iso, index, i).len() <= 17 - i,
    decreases 16 - i,
{
    if i >= 16 || spec_triangle_edge(index, i) == -1 {
    } else {
        assert(spec_entry_ok(index, i) && spec_entry_ok(index, i + 1) && spec_entry_ok(index, i + 2));
        assert(spec_triangle_edge(index, i + 1) != -1 && spec_triangle_edge(index, i + 2) != -1);
        assert(spec_row_len(index, i) == 1 + spec_row_len(index, i + 1));
        assert(spec_row_len(index, i + 1) == 1 + spec_row_len(index, i + 2));
        assert(spec_row_len(index, i + 2) == 1 + spec_row_len(index, i + 3));
        lemma_triangles_count_from(g, iso, index, i + 3);
    }
}

/// The number of triangles a non-uniform case emits equals the number of
/// entries before its row's sentinel divided by three, and is at most 5.
pub proof fn lemma_triangle_count(g: Seq<Corner>, iso: i32)
    requires
        1 <= spec_cube_index(g, iso) <= 254,
        spec_row_ok(spec_cube_index(g, iso) as int, 0),
    ensures
        3 * spec_polygonize(g, iso).len() == spec_row_len(
            spec_cube_index(g, iso) as int,
            0,
        ),
        spec_polygonize(g, iso).len() <= 5,
{
    lemma_triangles_count_from(g, iso, spec_cube_index(g, iso) as int, 0);
}

/// Symmetry of the exact interpolation along one axis under endpoint
/// swap, for differing samples.
proof fn lemma_axis_symmetric(pa: int, pb: int, va: int, vb: int, iso: int)
    requires
        va != vb,
    ensures
        spec_axis_interpolation(pa, pb, va, vb, iso) == spec_axis_interpolation(
            pb,
            pa,
            vb,
            va,
            iso,
        ),
{
    assert(spec_interp_num(pb, pa, vb, va, iso) == -spec_interp_num(pa, pb, va, vb, iso))
        by (nonlinear_arith);
}

/// Edge interpolation is symmetric in its endpoints: the crossing point
/// of edge (a, b) equals that of edge (b, a) whenever the two samples
/// differ — and on an edge the surface crosses they always differ.
pub proof fn lemma_interpolation_symmetric(a: Corner, b: Corner, iso: i32)
    requires
        a.value != b.value,
    ensures
        spec_interpolate(a, b, iso) == spec_interpolate(b, a, iso),
{
    if a.value != iso && b.value != iso {
        lemma_axis_symmetric(
            a.position.x as int,
            b.position.x as int,
            a.value as int,
            b.value as int,
            iso as int,
        );
        lemma_axis_symmetric(
            a.position.y as int,
            b.position.y as int,
            a.value as int,
            b.value as int,
            iso as int,
        );
        lemma_axis_symmetric(
            a.position.z as int,
            b.position.z as int,
            a.value as int,
            b.value as int,
            iso as int,
        );
    }
}

/// Bit `k` of the case index reads back exactly corner `k`'s
/// classification.
pub proof fn lemma_cube_index_bit(g: Seq<Corner>, iso: i32, k: int)
    requires
        0 <= k < 8,
    ensures
        crate::tables::spec_index_bit(spec_cube_index(g, iso) as int, k) == spec_below(
            g[k].value,
            iso,
        ),
{
    let x0: u8 = if spec_below(g[0].value, iso) { 1 } else { 0 };
    let x1: u8 = if spec_below(g[1].value, iso) { 1 } else { 0 };
    let x2: u8 = if spec_below(g[2].value, iso) { 1 } else { 0 };
    let x3: u8 = if spec_below(g[3].value, iso) { 1 } else { 0 };
    let x4: u8 = if spec_below(g[4].value, iso) { 1 } else { 0 };
    let x5: u8 = if spec_below(g[5].value, iso) { 1 } else { 0 };
    let x6: u8 = if spec_below(g[6].value, iso) { 1 } else { 0 };
    let x7: u8 = if spec_below(g[7].value, iso) { 1 } else { 0 };
    let s: u8 = spec_cube_index(g, iso);
    assert(s == x0 + 2 * x1 + 4 * x2 + 8 * x3 + 16 * x4 + 32 * x5 + 64 * x6 + 128 * x7);
    if k == 0 {
        assert((s >> 0u8) & 1 == x0) by (bit_vector)
            requires
                s == x0 + 2 * x1 + 4 * x2 + 8 * x3 + 16 * x4 + 32 * x5 + 64 * x6 + 128 * x7,
                x0 <= 1 && x1 <= 1 && x2 <= 1 && x3 <= 1 && x4 <= 1 && x5 <= 1 && x6 <= 1 && x7
                    <= 1,
        ;
    } else if k == 1 {
        assert((s >> 1u8) & 1 == x1) by (bit_vector)
            requires
                s == x0 + 2 * x1 + 4 * x2 + 8 * x3 + 16 * x4 + 32 * x5 + 64 * x6 + 128 * x7,
                x0 <= 1 && x1 <= 1 && x2 <= 1 && x3 <= 1 && x4 <= 1 && x5 <= 1 && x6 <= 1 && x7
                    <= 1,
        ;
    } else if k == 2 {
        assert((s >> 2u8) & 1 == x2) by (bit_vector)
            requires
                s == x0 + 2 * x1 + 4 * x2 + 8 * x3 + 16 * x4 + 32 * x5 + 64 * x6 + 128 * x7,
                x0 <= 1 && x1 <= 1 && x2 <= 1 && x3 <= 1 && x4 <= 1 && x5 <= 1 && x6 <= 1 && x7
                    <= 1,
        ;
    } else if k == 3 {
        assert((s >> 3u8) & 1 == x3) by (bit_vector)
            requires
                s == x0 + 2 * x1 + 4 * x2 + 8 * x3 + 16 * x4 + 32 * x5 + 64 * x6 + 128 * x7,
                x0 <= 1 && x1 <= 1 && x2 <= 1 && x3 <= 1 && x4 <= 1 && x5 <= 1 && x6 <= 1 && x7
                    <= 1,
        ;
    } else if k == 4 {
        assert((s >> 4u8) & 1 == x4) by (bit_vector)
            requires
                s == x0 + 2 * x1 + 4 * x2 + 8 * x3 + 16 * x4 + 32 * x5 + 64 * x6 + 128 * x7,
                x0 <= 1 && x1 <= 1 && x2 <= 1 && x3 <= 1 && x4 <= 1 && x5 <= 1 && x6 <= 1 && x7
                    <= 1,
        ;
    } else if k == 5 {
        assert((s >> 5u8) & 1 == x5) by (bit_vector)
            requires
                s == x0 + 2 * x1 + 4 * x2 + 8 * x3 + 16 * x4 + 32 * x5 + 64 * x6 + 128 * x7,
                x0 <= 1 && x1 <= 1 && x2 <= 1 && x3 <= 1 && x4 <= 1 && x5 <= 1 && x6 <= 1 && x7
                    <= 1,
        ;
    } else if k == 6 {
        assert((s >> 6u8) & 1 == x6) by (bit_vector)
            requires
                s == x0 + 2 * x1 + 4 * x2 + 8 * x3 + 16 * x4 + 32 * x5 + 64 * x6 + 128 * x7,
                x0 <= 1 && x1 <= 1 && x2 <= 1 && x3 <= 1 && x4 <= 1 && x5 <= 1 && x6 <= 1 && x7
                    <= 1,
        ;
    } else {
        assert((s >> 7u8) & 1 == x7) by (bit_vector)
            requires
                s == x0 + 2 * x1 + 4 * x2 + 8 * x3 + 16 * x4 + 32 * x5 + 64 * x6 + 128 * x7,
                x0 <= 1 && x1 <= 1 && x2 <= 1 && x3 <= 1 && x4 <= 1 && x5 <= 1 && x6 <= 1 && x7
                    <= 1,
        ;
    }
}

/// With the canonical edge table, a case's mask lists exactly the edges
/// whose two corner samples are classified differently — so on every
/// interpolated edge one endpoint is strictly below the iso-level and
/// the other is not.
pub proof fn lemma_listed_edges_cross(g: Seq<Corner>, iso: i32, e: int)
    requires
        crate::tables::spec_edge_table_canonical(),
        0 <= e < 12,
    ensures
        spec_edge_listed(spec_cube_index(g, iso) as int, e) == (spec_below(
            g[spec_edge_corner(e, 0)].value,
            iso,
        ) != spec_below(g[spec_edge_corner(e, 1)].value, iso)),
{
    crate::tables::lemma_edge_corners_range();
    lemma_cube_index_bit(g, iso, spec_edge_corner(e, 0));
    lemma_cube_index_bit(g, iso, spec_edge_corner(e, 1));
}

/// Every interpolated vertex is well formed: all three coordinates carry
/// a positive denominator.
pub proof fn lemma_interpolation_wf(a: Corner, b: Corner, iso: i32)
    ensures
        spec_interpolate(a, b, iso).wf(),
{
}

} // verus!
