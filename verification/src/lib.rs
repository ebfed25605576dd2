//! Marching Cubes isosurface extraction over a regular integer-sampled
//! scalar field.
//!
//! The crate turns a 3D grid of scalar samples and an iso-level into a
//! triangle mesh: each grid cell ("cube") of 8 samples is classified by
//! which corners lie below the iso-level, the crossed edges are
//! interpolated exactly (rational coordinates), and the canonical
//! 256-case lookup tables drive triangle emission.
//!
//! Scalar samples and corner positions are fixed-point integers, so every
//! step of the pipeline is exact and verified; a host application maps its
//! own (e.g. floating-point) samples into this representation and maps the
//! rational vertex coordinates back out.

pub mod geometry;
pub mod plugins;
pub mod polygonize;
pub mod surface;
pub mod tables;

pub use geometry::Corner;
pub use geometry::Point3;
pub use geometry::Rat;
pub use geometry::Triangle;
pub use geometry::Vertex;
pub use polygonize::MarchingCubes;
pub use polygonize::MeshError;
pub use surface::Mesh;
pub use surface::extract_surface;
