//! Checks of the constant lookup tables: well-formedness of every
//! triangulation row, canonicity of the edge table, and spot values
//! against the published tables.

use marching_cubes::tables::corner_offset;
use marching_cubes::tables::edge_corners;
use marching_cubes::tables::edge_mask;
use marching_cubes::tables::edge_table_canonical;
use marching_cubes::tables::tables_well_formed;
use marching_cubes::tables::triangle_edge;

#[test]
fn all_triangulation_rows_well_formed() {
    assert!(tables_well_formed());
}

#[test]
fn edge_table_is_canonical() {
    // Bit e of edge_mask(index) is set exactly when the two corners of
    // edge e are classified differently by index.
    assert!(edge_table_canonical());
}

#[test]
fn uniform_cases_have_no_active_edges() {
    assert_eq!(edge_mask(0), 0);
    assert_eq!(edge_mask(255), 0);
}

#[test]
fn edge_mask_spot_values() {
    assert_eq!(edge_mask(1), 0x109);
    assert_eq!(edge_mask(2), 0x203);
    assert_eq!(edge_mask(3), 0x30a);
    assert_eq!(edge_mask(15), 0xf00);
    // Complementary cases cross the same edges.
    for index in 0..=255u8 {
        assert_eq!(edge_mask(index), edge_mask(255 - index));
    }
}

#[test]
fn triangulation_row_spot_values() {
    // Case 0 and 255: empty rows.
    assert_eq!(triangle_edge(0, 0), -1);
    assert_eq!(triangle_edge(255, 0), -1);
    // Case 1: a single corner cap.
    let row1: Vec<i8> = (0..16).map(|i| triangle_edge(1, i)).collect();
    assert_eq!(&row1[0..4], &[0, 8, 3, -1]);
    // Case 15: the flat horizontal cut, two triangles.
    let row15: Vec<i8> = (0..16).map(|i| triangle_edge(15, i)).collect();
    assert_eq!(&row15[0..7], &[9, 8, 10, 10, 8, 11, -1]);
    // Case 254: the complement of case 1, one triangle on the same edges.
    let row254: Vec<i8> = (0..16).map(|i| triangle_edge(254, i)).collect();
    assert_eq!(&row254[0..4], &[0, 3, 8, -1]);
}

#[test]
fn edge_corner_pairs() {
    let expected: [[u8; 2]; 12] = [
        [0, 1],
        [1, 2],
        [2, 3],
        [3, 0],
        [4, 5],
        [5, 6],
        [6, 7],
        [7, 4],
        [0, 4],
        [1, 5],
        [2, 6],
        [3, 7],
    ];
    for e in 0..12u8 {
        assert_eq!(edge_corners(e), expected[e as usize]);
    }
}

#[test]
fn corner_offsets() {
    let expected: [[u8; 3]; 8] = [
        [0, 0, 0],
        [1, 0, 0],
        [1, 0, 1],
        [0, 0, 1],
        [0, 1, 0],
        [1, 1, 0],
        [1, 1, 1],
        [0, 1, 1],
    ];
    for k in 0..8u8 {
        assert_eq!(corner_offset(k), expected[k as usize]);
    }
}
