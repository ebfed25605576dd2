//! The geometric value types of the extractor: integer lattice points,
//! scalar field samples, exact rational coordinates, and triangles.

use vstd::prelude::*;

verus! {

/// A position on (or derived from) the sampling lattice, in fixed-point
/// integer world units.
#[derive(Clone, Copy, PartialEq, Eq, Structural, Debug)]
pub struct Point3 {
    pub x: i64,
    pub y: i64,
    pub z: i64,
}

/// One scalar field sample: where it was taken and the sampled value.
#[derive(Clone, Copy, PartialEq, Eq, Structural, Debug)]
pub struct Corner {
    pub position: Point3,
    pub value: i32,
}

/// An exact rational coordinate. Every `Rat` produced by this crate has a
/// positive denominator, so the pair determines the represented number
/// without further sign bookkeeping.
#[derive(Clone, Copy, PartialEq, Eq, Structural, Debug)]
pub struct Rat {
    pub num: i128,
    pub den: i128,
}

impl Rat {
    /// The denominator is positive; the invariant of every coordinate the
    /// extractor emits.
    pub open spec fn wf(self) -> bool {
        self.den > 0
    }

    /// The rational that represents the integer `v` exactly.
    pub open spec fn spec_from_int(v: i64) -> Rat {
        Rat { num: v as i128, den: 1 }
    }

    /// Embeds an integer coordinate as a rational.
    pub fn from_int(v: i64) -> (r: Rat)
        ensures
            r == Rat::spec_from_int(v),
            r.wf(),
    {
        Rat { num: v as i128, den: 1 }
    }

    /// Whether `self` and `other` represent the same number (cross
    /// multiplication; both sides well formed).
    pub open spec fn spec_same_value(self, other: Rat) -> bool {
        self.num * other.den == other.num * self.den
    }
}

/// A vertex of the output mesh: a point with exact rational coordinates,
/// lying on one edge of a cube.
#[derive(Clone, Copy, PartialEq, Eq, Structural, Debug)]
pub struct Vertex {
    pub x: Rat,
    pub y: Rat,
    pub z: Rat,
}

impl Vertex {
    /// All three coordinates carry positive denominators.
    pub open spec fn wf(self) -> bool {
        self.x.wf() && self.y.wf() && self.z.wf()
    }

    /// The vertex sitting exactly on the lattice point `p`.
    pub open spec fn spec_at_point(p: Point3) -> Vertex {
        Vertex {
            x: Rat::spec_from_int(p.x),
            y: Rat::spec_from_int(p.y),
            z: Rat::spec_from_int(p.z),
        }
    }
}

/// One face of the output mesh; the three vertices are kept in emission
/// order, which fixes the winding.
#[derive(Clone, Copy, PartialEq, Eq, Structural, Debug)]
pub struct Triangle {
    pub vertex_1: Vertex,
    pub vertex_2: Vertex,
    pub vertex_3: Vertex,
}

impl Triangle {
    /// All vertex coordinates carry positive denominators.
    pub open spec fn wf(self) -> bool {
        self.vertex_1.wf() && self.vertex_2.wf() && self.vertex_3.wf()
    }
}

} // verus!
