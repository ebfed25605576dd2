//! Marker types under which a host application registers the crate's
//! components with its engine.
//!
//! The extraction pipeline itself is engine-agnostic: it consumes plain
//! sampled values and produces plain mesh buffers. Wiring it to a
//! renderer — uploading buffers, drawing overlays, driving a custom
//! render pass — is the host's business, so these types carry no data
//! and no behaviour here; the host attaches its own engine-specific
//! implementations to them.

use vstd::prelude::*;

verus! {

/// Registration marker for the Marching Cubes extraction stage.
pub struct MarchingCubesPlugin;

/// Registration marker for a host render pass that consumes the
/// extracted mesh buffers.
pub struct CustomRenderPipelinePlugin;

/// Registration marker for a host debug/inspector overlay.
pub struct DebugUIPlugin;

} // verus!
