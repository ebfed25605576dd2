//! The grid walker: iterates a scalar field cube by cube, polygonizes
//! each cube, and accumulates the triangles into flat mesh buffers.
//!
//! A field of side `n` is sampled at every lattice point of `[0, n)³`
//! (linear index `x + n * (y + n * z)`); every cell whose far corner
//! still lies inside the grid — `(n - 1)³` of them — contributes its
//! triangles in traversal order.

use vstd::prelude::*;

use crate::geometry::Corner;
use crate::geometry::Point3;
use crate::geometry::Triangle;
use crate::geometry::Vertex;
use crate::polygonize::MarchingCubes;
use crate::polygonize::MeshError;
use crate::polygonize::lemma_uniform_case_empty;
use crate::polygonize::spec_below;
use crate::polygonize::spec_case_ok;
use crate::polygonize::spec_cube_index;
use crate::polygonize::spec_polygonize;
use crate::tables::lemma_corner_offset_values;
use crate::tables::lemma_corner_offsets_range;
use crate::tables::spec_corner_offset;
use crate::tables::spec_tables_ok;
use crate::tables::tables_well_formed;

verus! {

/// The extracted mesh: a flat vertex-position buffer and an index buffer
/// grouping every three consecutive indices into one triangle.
#[derive(Debug)]
pub struct Mesh {
    pub positions: Vec<Vertex>,
    pub indices: Vec<usize>,
}

/// The linear index of lattice point (x, y, z) in a field of side `n`
/// (x varies fastest, then y, then z).
pub open spec fn spec_sample_index(n: int, x: int, y: int, z: int) -> int {
    x + n * (y + n * z)
}

/// The corner of the field at lattice point (x, y, z): positioned at the
/// lattice point itself, valued by the field sample there.
pub open spec fn spec_corner(field: Seq<i32>, n: int, x: int, y: int, z: int) -> Corner {
    Corner {
        position: Point3 { x: x as i64, y: y as i64, z: z as i64 },
        value: field[spec_sample_index(n, x, y, z)],
    }
}

/// The 8 corners of the cube with origin (x, y, z), in the canonical
/// corner order.
pub open spec fn spec_cube_corners(field: Seq<i32>, n: int, x: int, y: int, z: int) -> Seq<
    Corner,
> {
    Seq::new(
        8,
        |k: int|
            spec_corner(
                field,
                n,
                x + spec_corner_offset(k, 0),
                y + spec_corner_offset(k, 1),
                z + spec_corner_offset(k, 2),
            ),
    )
}

/// The triangles of the single cube at (x, y, z).
pub open spec fn spec_cell_triangles(
    field: Seq<i32>,
    n: int,
    iso: i32,
    x: int,
    y: int,
    z: int,
) -> Seq<Triangle> {
    spec_polygonize(spec_cube_corners(field, n, x, y, z), iso)
}

/// The triangles of the cubes x = 0 .. x_end of row (y, z), in order.
pub open spec fn spec_row_triangles(
    field: Seq<i32>,
    n: int,
    iso: i32,
    x_end: int,
    y: int,
    z: int,
) -> Seq<Triangle>
    decreases x_end,
{
    if x_end <= 0 {
        Seq::empty()
    } else {
        spec_row_triangles(field, n, iso, x_end - 1, y, z) + spec_cell_triangles(
            field,
            n,
            iso,
            x_end - 1,
            y,
            z,
        )
    }
}

/// The triangles of the rows y = 0 .. y_end of layer z, each row holding
/// n - 1 cubes.
pub open spec fn spec_layer_triangles(
    field: Seq<i32>,
    n: int,
    iso: i32,
    y_end: int,
    z: int,
) -> Seq<Triangle>
    decreases y_end,
{
    if y_end <= 0 {
        Seq::empty()
    } else {
        spec_layer_triangles(field, n, iso, y_end - 1, z) + spec_row_triangles(
            field,
            n,
            iso,
            n - 1,
            y_end - 1,
            z,
        )
    }
}

/// The triangles of the layers z = 0 .. z_end.
pub open spec fn spec_grid_triangles(field: Seq<i32>, n: int, iso: i32, z_end: int) -> Seq<
    Triangle,
>
    decreases z_end,
{
    if z_end <= 0 {
        Seq::empty()
    } else {
        spec_grid_triangles(field, n, iso, z_end - 1) + spec_layer_triangles(
            field,
            n,
            iso,
            n - 1,
            z_end - 1,
        )
    }
}

/// Every triangle of the grid, in traversal order (x fastest, then y,
/// then z).
pub open spec fn spec_all_triangles(field: Seq<i32>, n: int, iso: i32) -> Seq<Triangle> {
    spec_grid_triangles(field, n, iso, n - 1)
}

/// The flat vertex buffer of a triangle list: three vertices per
/// triangle, in emission order.
pub open spec fn spec_flat_vertices(tris: Seq<Triangle>) -> Seq<Vertex>
    decreases tris.len(),
{
    if tris.len() == 0 {
        Seq::empty()
    } else {
        spec_flat_vertices(tris.drop_last()) + seq![
            tris.last().vertex_1,
            tris.last().vertex_2,
            tris.last().vertex_3,
        ]
    }
}

/// The identity index buffer of length `len`: every three consecutive
/// positions form one triangle, so the indices just count the vertices.
pub open spec fn spec_identity_indices(len: int) -> Seq<usize> {
    Seq::new(len as nat, |i: int| i as usize)
}

/// A valid extraction request: the grid holds at least one cube and the
/// field provides exactly one sample per lattice point.
pub open spec fn spec_request_ok(field: Seq<i32>, n: int) -> bool {
    n >= 2 && field.len() == n * n * n
}

/// Bounds on the pieces of the linear sample index of an in-range
/// lattice point.
proof fn lemma_sample_index_bounds(n: int, x: int, y: int, z: int)
    by (nonlinear_arith)
    requires
        0 <= x < n,
        0 <= y < n,
        0 <= z < n,
    ensures
        0 <= n * z,
        n * z <= y + n * z,
        0 <= y + n * z,
        y + n * z <= n * (y + n * z),
        n * (y + n * z) <= x + n * (y + n * z),
        0 <= x + n * (y + n * z) < n * n * n,
{
}

/// A side length whose cube fits in 64 bits is itself far below 2^22.
proof fn lemma_side_bound(n: int)
    by (nonlinear_arith)
    requires
        2 <= n,
        n * n * n <= 0xffff_ffff_ffff_ffff,
    ensures
        n < 0x40_0000,
{
}

/// A side length of 2^32 or more has a cube beyond 64 bits even at the
/// second power.
proof fn lemma_square_overflow(n: int, m: int)
    by (nonlinear_arith)
    requires
        2 <= n,
        m >= 0,
        n * n > m,
    ensures
        n * n * n > m,
{
}

/// Reads one corner of the field, placed at its lattice point.
fn corner_at(field: &Vec<i32>, n: usize, x: usize, y: usize, z: usize) -> (c: Corner)
    requires
        2 <= n,
        x < n,
        y < n,
        z < n,
        field@.len() == (n as int) * (n as int) * (n as int),
    ensures
        c == spec_corner(field@, n as int, x as int, y as int, z as int),
{
    let _field_len = field.len();
    proof {
        lemma_sample_index_bounds(n as int, x as int, y as int, z as int);
        lemma_side_bound(n as int);
    }
    let idx = x + n * (y + n * z);
    Corner { position: Point3 { x: x as i64, y: y as i64, z: z as i64 }, value: field[idx] }
}

/// Extracts the isosurface of a scalar field sampled on a cubic lattice
/// of side `grid_size`: classifies and polygonizes each of the
/// `(grid_size - 1)³` cubes and concatenates the triangles into a flat
/// position buffer plus the identity index buffer (the walker does not
/// deduplicate shared vertices).
///
/// Succeeds exactly when the grid holds at least one cube, the field
/// holds one sample per lattice point, and the constant tables are well
/// formed (of the shipped tables they are); each failure names its
/// reason.
pub fn extract_surface(field: &Vec<i32>, grid_size: usize, iso_level: i32) -> (r: Result<
    Mesh,
    MeshError,
>)
    ensures
        match r {
            Ok(mesh) => spec_request_ok(field@, grid_size as int) && spec_tables_ok()
                && mesh.positions@ == spec_flat_vertices(
                spec_all_triangles(field@, grid_size as int, iso_level),
            ) && mesh.indices@ == spec_identity_indices(mesh.positions@.len() as int),
            Err(MeshError::InvalidConfiguration) => grid_size < 2,
            Err(MeshError::SampleUnavailable) => grid_size >= 2 && field@.len() != (
            grid_size as int) * (grid_size as int) * (grid_size as int),
            Err(MeshError::TableInconsistency) => spec_request_ok(field@, grid_size as int)
                && !spec_tables_ok(),
        },
{
    if grid_size < 2 {
        return Err(MeshError::InvalidConfiguration);
    }
    let n = grid_size;
    let fl = field.len();
    let sample_count_ok: bool = match n.checked_mul(n) {
        Some(n2) => match n2.checked_mul(n) {
            Some(n3) => n3 == fl,
            None => false,
        },
        None => {
            proof {
                lemma_square_overflow(n as int, usize::MAX as int);
            }
            false
        },
    };
    if !sample_count_ok {
        return Err(MeshError::SampleUnavailable);
    }
    if !tables_well_formed() {
        return Err(MeshError::TableInconsistency);
    }
    let mc = MarchingCubes::new(iso_level);
    let mut tris: Vec<Triangle> = Vec::new();
    let m = n - 1;
    let mut z: usize = 0;
    while z < m
        invariant
            m == n - 1,
            2 <= n,
            field@.len() == (n as int) * (n as int) * (n as int),
            spec_tables_ok(),
            mc.iso_surface == iso_level,
            z <= m,
            tris@ == spec_grid_triangles(field@, n as int, iso_level, z as int),
        decreases m - z,
    {
        let mut y: usize = 0;
        while y < m
            invariant
                m == n - 1,
                2 <= n,
                field@.len() == (n as int) * (n as int) * (n as int),
                spec_tables_ok(),
                mc.iso_surface == iso_level,
                z < m,
                y <= m,
                tris@ == spec_grid_triangles(field@, n as int, iso_level, z as int)
                    + spec_layer_triangles(field@, n as int, iso_level, y as int, z as int),
            decreases m - y,
        {
            let mut x: usize = 0;
            while x < m
                invariant
                    m == n - 1,
                    2 <= n,
                    field@.len() == (n as int) * (n as int) * (n as int),
                    spec_tables_ok(),
                    mc.iso_surface == iso_level,
                    z < m,
                    y < m,
                    x <= m,
                    tris@ == spec_grid_triangles(field@, n as int, iso_level, z as int)
                        + spec_layer_triangles(field@, n as int, iso_level, y as int, z as int)
                        + spec_row_triangles(
                        field@,
                        n as int,
                        iso_level,
                        x as int,
                        y as int,
                        z as int,
                    ),
                decreases m - x,
            {
                let cube: [Corner; 8] = [
                    corner_at(field, n, x, y, z),
                    corner_at(field, n, x + 1, y, z),
                    corner_at(field, n, x + 1, y, z + 1),
                    corner_at(field, n, x, y, z + 1),
                    corner_at(field, n, x, y + 1, z),
                    corner_at(field, n, x + 1, y + 1, z),
                    corner_at(field, n, x + 1, y + 1, z + 1),
                    corner_at(field, n, x, y + 1, z + 1),
                ];
                proof {
                    lemma_corner_offset_values();
                    assert(cube@ =~= spec_cube_corners(
                        field@,
                        n as int,
                        x as int,
                        y as int,
                        z as int,
                    ));
                }
                match mc.polygonize(cube) {
                    Ok(mut t) => {
                        tris.append(&mut t);
                        proof {
                            assert(spec_row_triangles(
                                field@,
                                n as int,
                                iso_level,
                                x as int + 1,
                                y as int,
                                z as int,
                            ) =~= spec_row_triangles(
                                field@,
                                n as int,
                                iso_level,
                                x as int,
                                y as int,
                                z as int,
                            ) + spec_cell_triangles(
                                field@,
                                n as int,
                                iso_level,
                                x as int,
                                y as int,
                                z as int,
                            ));
                            assert(tris@ =~= spec_grid_triangles(
                                field@,
                                n as int,
                                iso_level,
                                z as int,
                            ) + spec_layer_triangles(
                                field@,
                                n as int,
                                iso_level,
                                y as int,
                                z as int,
                            ) + spec_row_triangles(
                                field@,
                                n as int,
                                iso_level,
                                x as int + 1,
                                y as int,
                                z as int,
                            ));
                        }
                    },
                    Err(_) => {
                        proof {
                            assert(spec_case_ok(spec_cube_index(cube@, iso_level) as int));
                            assert(false);
                        }
                        return Err(MeshError::TableInconsistency);
                    },
                }
                x = x + 1;
            }
            proof {
                assert(spec_layer_triangles(
                    field@,
                    n as int,
                    iso_level,
                    y as int + 1,
                    z as int,
                ) =~= spec_layer_triangles(field@, n as int, iso_level, y as int, z as int)
                    + spec_row_triangles(
                    field@,
                    n as int,
                    iso_level,
                    n as int - 1,
                    y as int,
                    z as int,
                ));
                assert(tris@ =~= spec_grid_triangles(field@, n as int, iso_level, z as int)
                    + spec_layer_triangles(field@, n as int, iso_level, y as int + 1, z as int));
            }
            y = y + 1;
        }
        proof {
            assert(spec_grid_triangles(field@, n as int, iso_level, z as int + 1)
                =~= spec_grid_triangles(field@, n as int, iso_level, z as int)
                + spec_layer_triangles(field@, n as int, iso_level, n as int - 1, z as int));
            assert(tris@ =~= spec_grid_triangles(field@, n as int, iso_level, z as int + 1));
        }
        z = z + 1;
    }
    let tl = tris.len();
    let mut positions: Vec<Vertex> = Vec::new();
    let mut j: usize = 0;
    while j < tl
        invariant
            j <= tl,
            tl == tris@.len(),
            positions@ == spec_flat_vertices(tris@.take(j as int)),
            positions@.len() == 3 * j,
        decreases tl - j,
    {
        let tri = tris[j];
        positions.push(tri.vertex_1);
        positions.push(tri.vertex_2);
        positions.push(tri.vertex_3);
        proof {
            assert(tris@.take(j as int + 1).drop_last() =~= tris@.take(j as int));
            assert(tris@.take(j as int + 1).last() == tris@[j as int]);
            assert(positions@ =~= spec_flat_vertices(tris@.take(j as int + 1)));
        }
        j = j + 1;
    }
    proof {
        assert(tris@.take(tl as int) =~= tris@);
    }
    let pl = positions.len();
    let mut indices: Vec<usize> = Vec::new();
    let mut k: usize = 0;
    while k < pl
        invariant
            k <= pl,
            indices@ == spec_identity_indices(k as int),
        decreases pl - k,
    {
        indices.push(k);
        proof {
            assert(indices@ =~= spec_identity_indices(k as int + 1));
        }
        k = k + 1;
    }
    Ok(Mesh { positions, indices })
}

/// Extraction is deterministic: any two meshes that satisfy the
/// extraction contract for the same field, grid size and iso-level carry
/// identical position and index buffers.
pub proof fn lemma_extraction_deterministic(m1: Mesh, m2: Mesh, field: Seq<i32>, n: int, iso: i32)
    requires
        m1.positions@ == spec_flat_vertices(spec_all_triangles(field, n, iso)),
        m1.indices@ == spec_identity_indices(m1.positions@.len() as int),
        m2.positions@ == spec_flat_vertices(spec_all_triangles(field, n, iso)),
        m2.indices@ == spec_identity_indices(m2.positions@.len() as int),
    ensures
        m1.positions@ == m2.positions@,
        m1.indices@ == m2.indices@,
{
}

/// One cube of a field that lies entirely below the iso-level emits no
/// triangles: all 8 corners classify below, the case is 255.
proof fn lemma_all_below_cell(field: Seq<i32>, n: int, iso: i32, x: int, y: int, z: int)
    requires
        spec_request_ok(field, n),
        forall|s: int| 0 <= s < field.len() ==> field[s] < iso,
        0 <= x < n - 1,
        0 <= y < n - 1,
        0 <= z < n - 1,
    ensures
        spec_cell_triangles(field, n, iso, x, y, z) == Seq::<Triangle>::empty(),
{
    lemma_corner_offsets_range();
    let g = spec_cube_corners(field, n, x, y, z);
    assert forall|k: int| 0 <= k < 8 implies spec_below(g[k].value, iso) by {
        lemma_sample_index_bounds(
            n,
            x + spec_corner_offset(k, 0),
            y + spec_corner_offset(k, 1),
            z + spec_corner_offset(k, 2),
        );
    }
    assert(spec_cube_index(g, iso) == 255);
    lemma_uniform_case_empty(g, iso);
}

/// A whole row of all-below cubes emits nothing.
proof fn lemma_all_below_row(field: Seq<i32>, n: int, iso: i32, x_end: int, y: int, z: int)
    requires
        spec_request_ok(field, n),
        forall|s: int| 0 <= s < field.len() ==> field[s] < iso,
        x_end <= n - 1,
        0 <= y < n - 1,
        0 <= z < n - 1,
    ensures
        spec_row_triangles(field, n, iso, x_end, y, z) == Seq::<Triangle>::empty(),
    decreases x_end,
{
    if x_end <= 0 {
    } else {
        lemma_all_below_row(field, n, iso, x_end - 1, y, z);
        lemma_all_below_cell(field, n, iso, x_end - 1, y, z);
        assert(spec_row_triangles(field, n, iso, x_end, y, z) =~= Seq::<Triangle>::empty());
    }
}

/// A whole layer of all-below cubes emits nothing.
proof fn lemma_all_below_layer(field: Seq<i32>, n: int, iso: i32, y_end: int, z: int)
    requires
        spec_request_ok(field, n),
        forall|s: int| 0 <= s < field.len() ==> field[s] < iso,
        y_end <= n - 1,
        0 <= z < n - 1,
    ensures
        spec_layer_triangles(field, n, iso, y_end, z) == Seq::<Triangle>::empty(),
    decreases y_end,
{
    if y_end <= 0 {
    } else {
        lemma_all_below_layer(field, n, iso, y_end - 1, z);
        lemma_all_below_row(field, n, iso, n - 1, y_end - 1, z);
        assert(spec_layer_triangles(field, n, iso, y_end, z) =~= Seq::<Triangle>::empty());
    }
}

/// The stack of layers z = 0 .. z_end of an all-below field emits
/// nothing.
proof fn lemma_all_below_grid(field: Seq<i32>, n: int, iso: i32, z_end: int)
    requires
        spec_request_ok(field, n),
        forall|s: int| 0 <= s < field.len() ==> field[s] < iso,
        z_end <= n - 1,
    ensures
        spec_grid_triangles(field, n, iso, z_end) == Seq::<Triangle>::empty(),
    decreases z_end,
{
    if z_end <= 0 {
    } else {
        lemma_all_below_grid(field, n, iso, z_end - 1);
        lemma_all_below_layer(field, n, iso, n - 1, z_end - 1);
        assert(spec_grid_triangles(field, n, iso, z_end) =~= Seq::<Triangle>::empty());
    }
}

/// A field uniformly below the iso-level produces a completely empty
/// mesh: no triangles, so no vertices and no indices.
pub proof fn lemma_all_below_empty_mesh(field: Seq<i32>, n: int, iso: i32)
    requires
        spec_request_ok(field, n),
        forall|s: int| 0 <= s < field.len() ==> field[s] < iso,
    ensures
        spec_all_triangles(field, n, iso) == Seq::<Triangle>::empty(),
        spec_flat_vertices(spec_all_triangles(field, n, iso)) == Seq::<Vertex>::empty(),
        spec_identity_indices(
            spec_flat_vertices(spec_all_triangles(field, n, iso)).len() as int,
        ) == Seq::<usize>::empty(),
{
    lemma_all_below_grid(field, n, iso, n - 1);
    assert(spec_identity_indices(0) =~= Seq::<usize>::empty());
}

} // verus!
