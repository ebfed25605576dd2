//! Per-cube behaviour: classification, exact interpolation (including
//! the degenerate-edge policy and endpoint-swap symmetry), and triangle
//! emission for concrete cases.

use marching_cubes::Corner;
use marching_cubes::MarchingCubes;
use marching_cubes::Point3;
use marching_cubes::Rat;

fn corner(x: i64, y: i64, z: i64, value: i32) -> Corner {
    Corner { position: Point3 { x, y, z }, value }
}

/// The unit cube in canonical corner order, with the given 8 values.
fn unit_cube(values: [i32; 8]) -> [Corner; 8] {
    let offsets: [[i64; 3]; 8] = [
        [0, 0, 0],
        [1, 0, 0],
        [1, 0, 1],
        [0, 0, 1],
        [0, 1, 0],
        [1, 1, 0],
        [1, 1, 1],
        [0, 1, 1],
    ];
    let mut cube = [corner(0, 0, 0, 0); 8];
    for k in 0..8 {
        cube[k] = corner(offsets[k][0], offsets[k][1], offsets[k][2], values[k]);
    }
    cube
}

#[test]
fn classify_mixed_cube() {
    let mc = MarchingCubes::new(0);
    // Bottom face below, top face above: bits 0..3 set.
    assert_eq!(mc.classify(&unit_cube([-1, -1, -1, -1, 1, 1, 1, 1])), 15);
    // A single corner below sets only its bit.
    assert_eq!(mc.classify(&unit_cube([-1, 1, 1, 1, 1, 1, 1, 1])), 1);
    assert_eq!(mc.classify(&unit_cube([1, 1, 1, 1, 1, 1, 1, -1])), 128);
    // Ties count as not below.
    assert_eq!(mc.classify(&unit_cube([0, 0, 0, 0, 0, 0, 0, 0])), 0);
}

#[test]
fn uniform_cases_emit_nothing() {
    let mc = MarchingCubes::new(0);
    // All below: case 255.
    let below = unit_cube([-3; 8]);
    assert_eq!(mc.classify(&below), 255);
    assert!(mc.polygonize(below).unwrap().is_empty());
    // All above: case 0.
    let above = unit_cube([3; 8]);
    assert_eq!(mc.classify(&above), 0);
    assert!(mc.polygonize(above).unwrap().is_empty());
}

#[test]
fn constant_cube_is_comparative_not_magnitude_dependent() {
    // Any constant value distinct from the iso-level yields case 0 or
    // 255 and no geometry, however large or small the constant.
    let mc = MarchingCubes::new(10);
    for c in [-1000000, -11, 9, 11, 1000000] {
        let cube = unit_cube([c; 8]);
        let index = mc.classify(&cube);
        assert!(index == 0 || index == 255);
        assert!(mc.polygonize(cube).unwrap().is_empty());
    }
}

#[test]
fn interpolation_hits_exact_midpoint() {
    let mc = MarchingCubes::new(0);
    let a = corner(0, 0, 0, -1);
    let b = corner(0, 2, 0, 1);
    let v = mc.interpolate_vertex(&a, &b);
    // num = 0 * (1 - 0) + 2 * (0 - (-1)) = 2, den = 1 - (-1) = 2.
    assert_eq!(v.y, Rat { num: 2, den: 2 });
    assert_eq!(v.x, Rat { num: 0, den: 2 });
    assert_eq!(v.z, Rat { num: 0, den: 2 });
}

#[test]
fn interpolation_is_exact_off_center() {
    let mc = MarchingCubes::new(0);
    // Crossing at 1/4 of the way from a to b.
    let a = corner(0, 0, 0, -1);
    let b = corner(4, 0, 0, 3);
    let v = mc.interpolate_vertex(&a, &b);
    // num = 0 * 3 + 4 * 1 = 4, den = 4: x = 1 exactly.
    assert_eq!(v.x, Rat { num: 4, den: 4 });
    assert!(v.x.den > 0);
}

#[test]
fn interpolation_degenerate_endpoint_on_surface() {
    let mc = MarchingCubes::new(5);
    // a sits exactly on the surface: answer is a's position.
    let a = corner(7, 8, 9, 5);
    let b = corner(1, 2, 3, 11);
    let v = mc.interpolate_vertex(&a, &b);
    assert_eq!(v.x, Rat { num: 7, den: 1 });
    assert_eq!(v.y, Rat { num: 8, den: 1 });
    assert_eq!(v.z, Rat { num: 9, den: 1 });
    // b on the surface (a not): answer is b's position.
    let v2 = mc.interpolate_vertex(&b, &a);
    assert_eq!(v2.x, Rat { num: 7, den: 1 });
    assert_eq!(v2.y, Rat { num: 8, den: 1 });
    assert_eq!(v2.z, Rat { num: 9, den: 1 });
}

#[test]
fn interpolation_degenerate_equal_values() {
    let mc = MarchingCubes::new(0);
    // Equal samples off the surface: answer is the first position.
    let a = corner(1, 1, 1, 4);
    let b = corner(9, 9, 9, 4);
    let v = mc.interpolate_vertex(&a, &b);
    assert_eq!(v.x, Rat { num: 1, den: 1 });
}

#[test]
fn interpolation_symmetric_under_endpoint_swap() {
    // For differing samples (always the case on a crossed edge) the
    // interpolated vertex does not depend on the endpoint order.
    let mc = MarchingCubes::new(2);
    let pairs = [
        (corner(0, 0, 0, -1), corner(4, 0, 0, 3)),
        (corner(-5, 7, 2, 0), corner(3, -1, 8, 100)),
        (corner(1, 2, 3, 2), corner(4, 5, 6, 9)),
        (corner(4, 5, 6, -7), corner(1, 2, 3, 2)),
    ];
    for (a, b) in pairs {
        assert_eq!(mc.interpolate_vertex(&a, &b), mc.interpolate_vertex(&b, &a));
    }
}

#[test]
fn half_filled_cube_caps_at_midheight() {
    // Bottom face below, top face above, iso exactly between: the flat
    // horizontal cut (case 15), two triangles, every vertex at the
    // interpolated midpoint height y = 1/2.
    let mc = MarchingCubes::new(0);
    let cube = unit_cube([-1, -1, -1, -1, 1, 1, 1, 1]);
    let tris = mc.polygonize(cube).unwrap();
    assert_eq!(tris.len(), 2);
    for tri in &tris {
        for v in [&tri.vertex_1, &tri.vertex_2, &tri.vertex_3] {
            // y == 1/2 exactly.
            assert_eq!(v.y, Rat { num: 1, den: 2 });
            assert!(v.x.den > 0 && v.y.den > 0 && v.z.den > 0);
        }
    }
}

#[test]
fn triangle_counts_match_rows() {
    // One corner below: one triangle. Two opposite corners: two.
    let mc = MarchingCubes::new(0);
    assert_eq!(mc.polygonize(unit_cube([-1, 1, 1, 1, 1, 1, 1, 1])).unwrap().len(), 1);
    assert_eq!(mc.polygonize(unit_cube([-1, 1, 1, 1, 1, 1, -1, 1])).unwrap().len(), 2);
    // No case emits more than 5 triangles.
    for index in 0..=255u16 {
        let mut values = [1i32; 8];
        for (k, value) in values.iter_mut().enumerate() {
            if (index >> k) & 1 == 1 {
                *value = -1;
            }
        }
        let cube = unit_cube(values);
        let mc0 = MarchingCubes::new(0);
        assert_eq!(mc0.classify(&cube) as u16, index);
        assert!(mc0.polygonize(cube).unwrap().len() <= 5);
    }
}
