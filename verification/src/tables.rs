//! The canonical Marching Cubes lookup tables and their well-formedness.
//!
//! Four constant tables drive polygonization: `EDGE_TABLE` maps a cube
//! index to the 12-bit mask of crossed edges, `TRI_TABLE` maps it to the
//! sentinel-terminated list of edges forming the emitted triangles,
//! `EDGE_CORNERS` maps an edge to the pair of corners it joins, and
//! `CORNER_OFFSETS` maps a corner number to its unit-cube offset.
//!
//! The raw arrays stay private; the module exposes O(1) lookup functions,
//! a structural description of the rows (`spec_row_ok`), and verified
//! runtime checkers (`tables_well_formed`, `edge_table_canonical`) that
//! decide exactly whether the constant data has the shape the rest of the
//! crate relies on.

use vstd::prelude::*;

verus! {

const EDGE_TABLE: [u16; 256] = [
    0x000, 0x109, 0x203, 0x30a, 0x406, 0x50f, 0x605, 0x70c,
    0x80c, 0x905, 0xa0f, 0xb06, 0xc0a, 0xd03, 0xe09, 0xf00,
    0x190, 0x099, 0x393, 0x29a, 0x596, 0x49f, 0x795, 0x69c,
    0x99c, 0x895, 0xb9f, 0xa96, 0xd9a, 0xc93, 0xf99, 0xe90,
    0x230, 0x339, 0x033, 0x13a, 0x636, 0x73f, 0x435, 0x53c,
    0xa3c, 0xb35, 0x83f, 0x936, 0xe3a, 0xf33, 0xc39, 0xd30,
    0x3a0, 0x2a9, 0x1a3, 0x0aa, 0x7a6, 0x6af, 0x5a5, 0x4ac,
    0xbac, 0xaa5, 0x9af, 0x8a6, 0xfaa, 0xea3, 0xda9, 0xca0,
    0x460, 0x569, 0x663, 0x76a, 0x066, 0x16f, 0x265, 0x36c,
    0xc6c, 0xd65, 0xe6f, 0xf66, 0x86a, 0x963, 0xa69, 0xb60,
    0x5f0, 0x4f9, 0x7f3, 0x6fa, 0x1f6, 0x0ff, 0x3f5, 0x2fc,
    0xdfc, 0xcf5, 0xfff, 0xef6, 0x9fa, 0x8f3, 0xbf9, 0xaf0,
    0x650, 0x759, 0x453, 0x55a, 0x256, 0x35f, 0x055, 0x15c,
    0xe5c, 0xf55, 0xc5f, 0xd56, 0xa5a, 0xb53, 0x859, 0x950,
    0x7c0, 0x6c9, 0x5c3, 0x4ca, 0x3c6, 0x2cf, 0x1c5, 0x0cc,
    0xfcc, 0xec5, 0xdcf, 0xcc6, 0xbca, 0xac3, 0x9c9, 0x8c0,
    0x8c0, 0x9c9, 0xac3, 0xbca, 0xcc6, 0xdcf, 0xec5, 0xfcc,
    0x0cc, 0x1c5, 0x2cf, 0x3c6, 0x4ca, 0x5c3, 0x6c9, 0x7c0,
    0x950, 0x859, 0xb53, 0xa5a, 0xd56, 0xc5f, 0xf55, 0xe5c,
    0x15c, 0x055, 0x35f, 0x256, 0x55a, 0x453, 0x759, 0x650,
    0xaf0, 0xbf9, 0x8f3, 0x9fa, 0xef6, 0xfff, 0xcf5, 0xdfc,
    0x2fc, 0x3f5, 0x0ff, 0x1f6, 0x6fa, 0x7f3, 0x4f9, 0x5f0,
    0xb60, 0xa69, 0x963, 0x86a, 0xf66, 0xe6f, 0xd65, 0xc6c,
    0x36c, 0x265, 0x16f, 0x066, 0x76a, 0x663, 0x569, 0x460,
    0xca0, 0xda9, 0xea3, 0xfaa, 0x8a6, 0x9af, 0xaa5, 0xbac,
    0x4ac, 0x5a5, 0x6af, 0x7a6, 0x0aa, 0x1a3, 0x2a9, 0x3a0,
    0xd30, 0xc39, 0xf33, 0xe3a, 0x936, 0x83f, 0xb35, 0xa3c,
    0x53c, 0x435, 0x73f, 0x636, 0x13a, 0x033, 0x339, 0x230,
    0xe90, 0xf99, 0xc93, 0xd9a, 0xa96, 0xb9f, 0x895, 0x99c,
    0x69c, 0x795, 0x49f, 0x596, 0x29a, 0x393, 0x099, 0x190,
    0xf00, 0xe09, 0xd03, 0xc0a, 0xb06, 0xa0f, 0x905, 0x80c,
    0x70c, 0x605, 0x50f, 0x406, 0x30a, 0x203, 0x109, 0x000,
];

const TRI_ROWS: [u64; 256] = [
    0xffffffffffffffff, 0xfffffffffffff380, 0xfffffffffffff910, 0xffffffffff189381,
    0xfffffffffffffa21, 0xffffffffffa21380, 0xffffffffff920a29, 0xfffffff89a8a2382,
    0xfffffffffffff2b3, 0xffffffffff0b82b0, 0xffffffffffb32091, 0xfffffffb89b912b1,
    0xffffffffff3ab1a3, 0xfffffffab8a801a0, 0xfffffff9ab9b3093, 0xffffffffffb8aa89,
    0xfffffffffffff874, 0xffffffffff437034, 0xffffffffff748910, 0xfffffff137174914,
    0xffffffffff748a21, 0xfffffffa21403743, 0xfffffff748209a29, 0xffff4973727929a2,
    0xffffffffff2b3748, 0xfffffff40242b74b, 0xfffffffb32748109, 0xffff1292b9b49b74,
    0xfffffff487ab31a3, 0xffff4b7401b41ab1, 0xffff30bab9b09874, 0xfffffffab99b4b74,
    0xfffffffffffff459, 0xffffffffff380459, 0xffffffffff051450, 0xfffffff513538458,
    0xffffffffff459a21, 0xfffffff594a21803, 0xfffffff204245a25, 0xffff8434535235a2,
    0xffffffffffb32459, 0xfffffff594b802b0, 0xfffffffb32510450, 0xffff584b82852512,
    0xfffffff45931ab3a, 0xffffab81a8180594, 0xffff30bab5b05045, 0xfffffffb8aa85845,
    0xffffffffff975879, 0xfffffff375359039, 0xfffffff751710870, 0xffffffffff753351,
    0xfffffff21a759879, 0xffff37503505921a, 0xffff25a758528208, 0xfffffff7533525a2,
    0xfffffff2b3987597, 0xffffb72029279759, 0xffff751871810b32, 0xfffffff51771b12b,
    0xffffb3a31a758859, 0xf0aba010b7905075, 0xf07570805a30b0ab, 0xffffffffff5b75ab,
    0xfffffffffffff56a, 0xffffffffff6a5380, 0xffffffffff6a5109, 0xfffffff6a5891381,
    0xffffffffff162561, 0xfffffff803621561, 0xfffffff620609569, 0xffff823625285895,
    0xffffffffff56ab32, 0xfffffff56a02b80b, 0xfffffff6a5b32910, 0xffffb892b92916a5,
    0xfffffff315356b36, 0xffff6b51505b0b80, 0xffff9505606306b3, 0xfffffff89bb96956,
    0xffffffffff8746a5, 0xfffffffa56374034, 0xfffffff7486a5091, 0xffff49737179156a,
    0xfffffff874156216, 0xffff743403625521, 0xffff620560509748, 0xf962695923497937,
    0xfffffff56a4872b3, 0xffffb720242746a5, 0xffff6a5b32874910, 0xf6a54b7b492b9129,
    0xffff6b51535b3748, 0xfb404b7b016b5b15, 0xf74836b630560950, 0xffff9b7974b96956,
    0xffffffffffa4694a, 0xfffffff380a946a4, 0xfffffff04606a10a, 0xffffa16468618138,
    0xfffffff462421941, 0xffff462942921803, 0xffffffffff624420, 0xfffffff624428238,
    0xfffffff32b46a94a, 0xffff6a4a94b82280, 0xffffa164606102b3, 0xf1b8b12184a16146,
    0xffff36b319639469, 0xf14641916b0181b8, 0xfffffff4600636b3, 0xffffffffff86b846,
    0xfffffffa98a876a7, 0xffffa76a907a0370, 0xffff0818717a176a, 0xfffffff37117a76a,
    0xffff768981861621, 0xf937390976192962, 0xfffffff206607087, 0xffffffffff276237,
    0xffff76898a86ab32, 0xf7a9a76790b72702, 0xfb32a767a1871081, 0xffff17616a71b12b,
    0xf63136b619768698, 0xffffffffff76b190, 0xffff06b0b3607087, 0xfffffffffffff6b7,
    0xfffffffffffffb67, 0xffffffffff67b803, 0xffffffffff67b910, 0xfffffff67b138918,
    0xffffffffff7b621a, 0xfffffff7b6803a21, 0xfffffff7b69a2092, 0xffff89a38a3a27b6,
    0xffffffffff726327, 0xfffffff026067807, 0xfffffff910732672, 0xffff678891681261,
    0xfffffff73171a67a, 0xffff801781a7167a, 0xffff7a69a0a70730, 0xfffffff9a88a7a67,
    0xffffffffff68b486, 0xfffffff640603b63, 0xfffffff109648b68, 0xffff63b139369649,
    0xfffffff1a28b6486, 0xffff640b60b03a21, 0xffff9a2920b648b4, 0xf36463b34923a39a,
    0xfffffff264248328, 0xffffffffff264240, 0xffff834642432091, 0xfffffff642241491,
    0xffff1a6648168318, 0xfffffff40660a01a, 0xf39a9303a6834364, 0xffffffffff4a649a,
    0xffffffffffb67594, 0xfffffff67b594380, 0xfffffffb67045105, 0xffff51345343867b,
    0xfffffffb6721a459, 0xffff594380a217b6, 0xffff204a24a45b67, 0xf67b25a523453843,
    0xfffffff945267327, 0xffff786260680459, 0xffff045051673263, 0xf851584812786826,
    0xffff73167161a459, 0xf459078701671a61, 0xfa737a6a305a4a04, 0xffffa84a458a7a67,
    0xfffffff98b9b6596, 0xffff590650360b63, 0xffffb65510b508b0, 0xfffffff1355363b6,
    0xffff65b8b9b59a21, 0xfa21965690b603b0, 0xf52025a50865b58b, 0xffff35a3a25363b6,
    0xffff283265825985, 0xfffffff260069659, 0xf826283865081851, 0xffffffffff612651,
    0xf698965683a61631, 0xffff06505960a01a, 0xffffffffffa65830, 0xfffffffffffff65a,
    0xffffffffffb57a5b, 0xfffffff03857ba5b, 0xfffffff091ba57b5, 0xffff1381897ba57a,
    0xfffffff15717b21b, 0xffffb27571721380, 0xffff7b2209729579, 0xf289823295b27257,
    0xfffffff573532a52, 0xffff52a578258028, 0xffff2a37353a5109, 0xf25752a278129289,
    0xffffffffff573531, 0xfffffff571170780, 0xfffffff735539309, 0xffffffffff795789,
    0xfffffff8ba8a5485, 0xffff03bba50b5405, 0xffff54aba8a48910, 0xf41314943b54a4ba,
    0xffff8548b2582152, 0xfb151b2b543b0b40, 0xf58b8545b2950520, 0xffffffffff3b2549,
    0xffff483543253a52, 0xfffffff0244252a5, 0xf910854583a532a3, 0xffff2492914252a5,
    0xfffffff153358548, 0xffffffffff501540, 0xffff530509358548, 0xfffffffffffff549,
    0xfffffffba9b947b4, 0xffffba97b9794380, 0xffffb470414b1ba1, 0xf4bab474a1843413,
    0xffff219b294b97b4, 0xf3801b2b197b9479, 0xfffffff04224b47b, 0xffff42343824b47b,
    0xffff947732972a92, 0xf70207872a4797a9, 0xfa040a1a472a3a73, 0xffffffffff4782a1,
    0xfffffff317714194, 0xffff178180714194, 0xffffffffff347304, 0xfffffffffffff784,
    0xffffffffff8ba8a9, 0xfffffffa9bb93903, 0xfffffffba88a0a10, 0xffffffffffa3ba13,
    0xfffffff8b99b1b21, 0xffff9b2921b93903, 0xffffffffffb08b20, 0xfffffffffffffb23,
    0xfffffff98aa82832, 0xffffffffff2902a9, 0xffff8a1810a82832, 0xfffffffffffff2a1,
    0xffffffffff819831, 0xfffffffffffff190, 0xfffffffffffff830, 0xffffffffffffffff,
];

const EDGE_CORNERS: [[u8; 2]; 12] = [
    [0, 1], [1, 2], [2, 3], [3, 0], [4, 5], [5, 6], [6, 7], [7, 4], [0, 4], [1, 5], [2, 6], [3, 7],
];

const CORNER_OFFSETS: [[u8; 3]; 8] = [
    [0, 0, 0], [1, 0, 0], [1, 0, 1], [0, 0, 1], [0, 1, 0], [1, 1, 0], [1, 1, 1], [0, 1, 1],
];

/// The 12-bit edge-activation mask of cube case `index`: bit `e` is set
/// when the isosurface crosses edge `e`.
pub closed spec fn spec_edge_mask(index: int) -> u16 {
    EDGE_TABLE@[index]
}

/// Decodes entry `i` (in `0..16`) of a packed triangulation row: four
/// bits per entry, least significant first; nibble 15 is the sentinel.
pub open spec fn spec_row_entry(row: u64, i: int) -> i8 {
    let nib = (row >> ((4 * i) as u64)) & 0xf;
    if nib == 15 {
        -1i8
    } else {
        nib as i8
    }
}

/// Entry `i` of the triangulation row of cube case `index`: an edge
/// number in `0..12`, or `-1` as the end-of-row sentinel.
pub closed spec fn spec_triangle_edge(index: int, i: int) -> i8 {
    spec_row_entry(TRI_ROWS@[index], i)
}

/// Corner `which` (0 or 1) of the pair joined by edge `e`.
pub closed spec fn spec_edge_corner(e: int, which: int) -> int {
    EDGE_CORNERS@[e]@[which] as int
}

/// The offset (0 or 1) of cube corner `k` along `axis` (0 = x, 1 = y,
/// 2 = z).
pub closed spec fn spec_corner_offset(k: int, axis: int) -> int {
    CORNER_OFFSETS@[k]@[axis] as int
}

/// Looks up the edge-activation mask of a cube case.
pub fn edge_mask(index: u8) -> (r: u16)
    ensures
        r == spec_edge_mask(index as int),
{
    EDGE_TABLE[index as usize]
}

/// Looks up one entry of the triangulation row of a cube case.
pub fn triangle_edge(index: u8, i: usize) -> (r: i8)
    requires
        i < 16,
    ensures
        r == spec_triangle_edge(index as int, i as int),
{
    let row = TRI_ROWS[index as usize];
    let nib = (row >> ((4 * i) as u64)) & 0xf;
    if nib == 15 {
        -1
    } else {
        nib as i8
    }
}

/// Looks up the two corner numbers joined by edge `e`.
pub fn edge_corners(e: u8) -> (r: [u8; 2])
    requires
        e < 12,
    ensures
        r@[0] == spec_edge_corner(e as int, 0),
        r@[1] == spec_edge_corner(e as int, 1),
        r@[0] < 8,
        r@[1] < 8,
{
    EDGE_CORNERS[e as usize]
}

/// Looks up the unit-cube offset of corner `k` as `[x, y, z]`.
pub fn corner_offset(k: u8) -> (r: [u8; 3])
    requires
        k < 8,
    ensures
        r@[0] == spec_corner_offset(k as int, 0),
        r@[1] == spec_corner_offset(k as int, 1),
        r@[2] == spec_corner_offset(k as int, 2),
        r@[0] <= 1 && r@[1] <= 1 && r@[2] <= 1,
{
    CORNER_OFFSETS[k as usize]
}

/// Every corner offset is 0 or 1, and corner 0 sits at the cell origin.
pub proof fn lemma_corner_offsets_range()
    ensures
        forall|k: int, axis: int|
            0 <= k < 8 && 0 <= axis < 3 ==> 0 <= #[trigger] spec_corner_offset(k, axis) <= 1,
{
    assert forall|k: int, axis: int|
        0 <= k < 8 && 0 <= axis < 3 implies 0 <= #[trigger] spec_corner_offset(k, axis) <= 1 by {
        reveal(spec_corner_offset);
    }
}

/// The canonical corner numbering: bottom face 0-1-2-3 counter-clockwise
/// (y = 0), top face 4-7 directly above.
pub proof fn lemma_corner_offset_values()
    ensures
        spec_corner_offset(0, 0) == 0 && spec_corner_offset(0, 1) == 0 && spec_corner_offset(0, 2)
            == 0,
        spec_corner_offset(1, 0) == 1 && spec_corner_offset(1, 1) == 0 && spec_corner_offset(1, 2)
            == 0,
        spec_corner_offset(2, 0) == 1 && spec_corner_offset(2, 1) == 0 && spec_corner_offset(2, 2)
            == 1,
        spec_corner_offset(3, 0) == 0 && spec_corner_offset(3, 1) == 0 && spec_corner_offset(3, 2)
            == 1,
        spec_corner_offset(4, 0) == 0 && spec_corner_offset(4, 1) == 1 && spec_corner_offset(4, 2)
            == 0,
        spec_corner_offset(5, 0) == 1 && spec_corner_offset(5, 1) == 1 && spec_corner_offset(5, 2)
            == 0,
        spec_corner_offset(6, 0) == 1 && spec_corner_offset(6, 1) == 1 && spec_corner_offset(6, 2)
            == 1,
        spec_corner_offset(7, 0) == 0 && spec_corner_offset(7, 1) == 1 && spec_corner_offset(7, 2)
            == 1,
{
}

/// Both corners of every edge are corner numbers in `0..8`.
pub proof fn lemma_edge_corners_range()
    ensures
        forall|e: int, which: int|
            0 <= e < 12 && 0 <= which < 2 ==> 0 <= #[trigger] spec_edge_corner(e, which) < 8,
{
    assert forall|e: int, which: int|
        0 <= e < 12 && 0 <= which < 2 implies 0 <= #[trigger] spec_edge_corner(e, which) < 8 by {
        reveal(spec_edge_corner);
    }
}

/// Whether edge `e` is listed (bit set) in the edge mask of `index`.
pub open spec fn spec_edge_listed(index: int, e: int) -> bool {
    0 <= e < 12 && (spec_edge_mask(index) >> (e as u16)) & 1 == 1
}

/// Whether entry `i` of the row of `index` is an in-range edge number
/// that the edge mask of `index` also lists.
pub open spec fn spec_entry_ok(index: int, i: int) -> bool {
    0 <= spec_triangle_edge(index, i) < 12 && spec_edge_listed(
        index,
        spec_triangle_edge(index, i) as int,
    )
}

/// Structural well-formedness of the triangulation row of `index` from
/// entry `i` on: entries come in complete triples of listed edge numbers
/// and end with the sentinel (or with the 16th slot).
pub open spec fn spec_row_ok(index: int, i: int) -> bool
    decreases 16 - i,
{
    if i < 0 || i >= 16 {
        true
    } else if spec_triangle_edge(index, i) == -1 {
        true
    } else if i + 3 > 16 {
        false
    } else {
        spec_entry_ok(index, i) && spec_entry_ok(index, i + 1) && spec_entry_ok(index, i + 2)
            && spec_row_ok(index, i + 3)
    }
}

/// The number of entries of the row of `index` from `i` up to the first
/// sentinel (or the end of the row).
pub open spec fn spec_row_len(index: int, i: int) -> int
    decreases 16 - i,
{
    if i < 0 || i >= 16 || spec_triangle_edge(index, i) == -1 {
        0
    } else {
        1 + spec_row_len(index, i + 1)
    }
}

/// Every one of the 256 triangulation rows is structurally well formed.
pub open spec fn spec_tables_ok() -> bool {
    forall|index: int| 0 <= index < 256 ==> spec_row_ok(index, 0)
}

/// Bit `k` of a cube index: whether corner `k` was classified below the
/// iso-level when the index was built.
pub open spec fn spec_index_bit(index: int, k: int) -> bool {
    ((index as u8) >> (k as u8)) & 1 == 1
}

/// Whether the two corners of edge `e` are classified differently by
/// `index`; exactly then the isosurface crosses edge `e`.
pub open spec fn spec_edge_crossed(index: int, e: int) -> bool {
    spec_index_bit(index, spec_edge_corner(e, 0)) != spec_index_bit(index, spec_edge_corner(e, 1))
}

/// The edge table lists, for every case, exactly the crossed edges.
pub open spec fn spec_edge_table_canonical() -> bool {
    forall|index: int, e: int|
        0 <= index < 256 && 0 <= e < 12 ==> (#[trigger] spec_edge_listed(index, e)
            <==> spec_edge_crossed(index, e))
}

/// Whether `t` is an in-range edge number whose bit is set in `mask`.
pub(crate) fn entry_listed(mask: u16, t: i8) -> (r: bool)
    ensures
        r == (0 <= t < 12 && (mask >> (t as u16)) & 1 == 1),
{
    t >= 0 && t < 12 && (mask >> (t as u16)) & 1 == 1
}

/// Checks one triangulation row for structural well-formedness.
pub fn check_row(index: u8) -> (r: bool)
    ensures
        r == spec_row_ok(index as int, 0),
{
    let mask = edge_mask(index);
    let mut i: usize = 0;
    while i + 3 <= 16
        invariant
            i % 3 == 0,
            i <= 15,
            mask == spec_edge_mask(index as int),
            spec_row_ok(index as int, 0) == spec_row_ok(index as int, i as int),
        decreases 16 - i,
    {
        let t0 = triangle_edge(index, i);
        if t0 == -1 {
            return true;
        }
        let t1 = triangle_edge(index, i + 1);
        let t2 = triangle_edge(index, i + 2);
        if !(entry_listed(mask, t0) && entry_listed(mask, t1) && entry_listed(mask, t2)) {
            return false;
        }
        i = i + 3;
    }
    triangle_edge(index, 15) == -1
}

/// Checks all 256 triangulation rows; `true` exactly when the constant
/// tables have the shape the polygonizer relies on.
pub fn tables_well_formed() -> (r: bool)
    ensures
        r == spec_tables_ok(),
{
    let mut index: usize = 0;
    while index < 256
        invariant
            index <= 256,
            forall|k: int| 0 <= k < index ==> spec_row_ok(k, 0),
        decreases 256 - index,
    {
        if !check_row(index as u8) {
            assert(!spec_row_ok(index as int, 0));
            return false;
        }
        index = index + 1;
    }
    true
}

/// Checks that the edge table is the canonical one: for every case it
/// lists exactly the edges whose corners the case classifies differently.
pub fn edge_table_canonical() -> (r: bool)
    ensures
        r == spec_edge_table_canonical(),
{
    let mut index: usize = 0;
    while index < 256
        invariant
            index <= 256,
            forall|k: int, e: int|
                0 <= k < index && 0 <= e < 12 ==> (#[trigger] spec_edge_listed(k, e)
                    <==> spec_edge_crossed(k, e)),
        decreases 256 - index,
    {
        let mask = edge_mask(index as u8);
        let mut e: u8 = 0;
        while e < 12
            invariant
                e <= 12,
                index < 256,
                mask == spec_edge_mask(index as int),
                forall|ee: int|
                    0 <= ee < e ==> (#[trigger] spec_edge_listed(index as int, ee)
                        <==> spec_edge_crossed(index as int, ee)),
            decreases 12 - e,
        {
            let pair = edge_corners(e);
            let bit_a = ((index as u8) >> pair[0]) & 1 == 1;
            let bit_b = ((index as u8) >> pair[1]) & 1 == 1;
            let listed = (mask >> (e as u16)) & 1 == 1;
            if listed != (bit_a != bit_b) {
                assert(!(spec_edge_listed(index as int, e as int) <==> spec_edge_crossed(
                    index as int,
                    e as int,
                )));
                return false;
            }
            e = e + 1;
        }
        index = index + 1;
    }
    true
}

} // verus!
