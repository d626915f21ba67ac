use vstd::prelude::*;

verus! {

/// Marker for the coordinate space of the screen (normalized device
/// coordinates), the target space of the view transform.
pub struct ScreenSpace;

/// Marker for the vertex constructor that turns the vertices the tessellator
/// emits into render vertices. The library holds no behaviour for it; the
/// conversion itself computes in floating point and lives with the renderer.
pub struct VertexCtor;

} // verus!
