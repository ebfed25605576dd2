//! Whole-grid extraction: scenarios, error reporting, and determinism.

use marching_cubes::MeshError;
use marching_cubes::Rat;
use marching_cubes::extract_surface;

/// Builds a field of side `n` from a per-lattice-point function
/// (linear index x + n * (y + n * z)).
fn build_field(n: usize, f: impl Fn(usize, usize, usize) -> i32) -> Vec<i32> {
    let mut field = Vec::with_capacity(n * n * n);
    for z in 0..n {
        for y in 0..n {
            for x in 0..n {
                field.push(f(x, y, z));
            }
        }
    }
    // The walker indexes x fastest; so does this builder.
    field
}

#[test]
fn rejects_too_small_grids() {
    assert_eq!(extract_surface(&vec![], 0, 0).unwrap_err(), MeshError::InvalidConfiguration);
    assert_eq!(extract_surface(&vec![5], 1, 0).unwrap_err(), MeshError::InvalidConfiguration);
}

#[test]
fn rejects_incomplete_fields() {
    // A 2-grid needs exactly 8 samples.
    assert_eq!(extract_surface(&vec![0; 7], 2, 0).unwrap_err(), MeshError::SampleUnavailable);
    assert_eq!(extract_surface(&vec![0; 9], 2, 0).unwrap_err(), MeshError::SampleUnavailable);
    assert_eq!(extract_surface(&vec![0; 27], 4, 0).unwrap_err(), MeshError::SampleUnavailable);
}

#[test]
fn all_below_iso_means_empty_mesh() {
    // A uniformly below-iso field of any size produces zero vertices and
    // zero indices.
    for n in [2usize, 3, 4, 5] {
        let field = vec![-5i32; n * n * n];
        let mesh = extract_surface(&field, n, 0).unwrap();
        assert!(mesh.positions.is_empty());
        assert!(mesh.indices.is_empty());
    }
}

#[test]
fn all_above_iso_means_empty_mesh() {
    for n in [2usize, 3, 4] {
        let field = vec![5i32; n * n * n];
        let mesh = extract_surface(&field, n, 0).unwrap();
        assert!(mesh.positions.is_empty());
        assert!(mesh.indices.is_empty());
    }
}

#[test]
fn single_cube_half_filled() {
    // One cube (grid size 2), bottom face below and top face above the
    // iso-level: the flat cut, 2 triangles, 6 vertices, identity
    // indices, every vertex at the interpolated midpoint height.
    let field = build_field(2, |_, y, _| if y == 0 { -1 } else { 1 });
    let mesh = extract_surface(&field, 2, 0).unwrap();
    assert_eq!(mesh.positions.len(), 6);
    assert_eq!(mesh.indices, (0..6).collect::<Vec<usize>>());
    for v in &mesh.positions {
        assert_eq!(v.y, Rat { num: 1, den: 2 });
    }
}

#[test]
fn flat_horizontal_plane_over_grid() {
    // Field value = lattice height minus the iso-level, over a 4-grid:
    // exactly one slab of cubes crosses the surface, contributing 2
    // triangles per cube (9 cubes), and every emitted vertex sits
    // exactly at the height where the field equals the iso-level.
    let iso = 1i32;
    let field = build_field(4, |_, y, _| y as i32 - iso);
    let mesh = extract_surface(&field, 4, iso).unwrap();
    // 9 cubes * 2 triangles * 3 vertices.
    assert_eq!(mesh.positions.len(), 54);
    assert_eq!(mesh.indices.len(), 54);
    for v in &mesh.positions {
        // The field equals iso at height 2; ties classify as outside, so
        // the crossing lands exactly on that lattice plane.
        assert_eq!(v.y.num, 2 * v.y.den);
    }
}

#[test]
fn extraction_is_deterministic() {
    let field = build_field(5, |x, y, z| {
        // An arbitrary but fixed bumpy field.
        (x as i32 * 7 + y as i32 * 13 + z as i32 * 29) % 11 - 5
    });
    let first = extract_surface(&field, 5, 0).unwrap();
    let second = extract_surface(&field, 5, 0).unwrap();
    assert_eq!(first.positions, second.positions);
    assert_eq!(first.indices, second.indices);
    assert_eq!(first.indices, (0..first.positions.len()).collect::<Vec<usize>>());
}

#[test]
fn emitted_vertices_are_well_formed() {
    let field = build_field(4, |x, y, z| {
        (x as i32 - 1) * (y as i32 - 2) + z as i32 * 3 - 4
    });
    let mesh = extract_surface(&field, 4, 0).unwrap();
    assert_eq!(mesh.positions.len() % 3, 0);
    for v in &mesh.positions {
        assert!(v.x.den > 0 && v.y.den > 0 && v.z.den > 0);
    }
}
