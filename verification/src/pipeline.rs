//! The fixed-function render pipeline plan, built once at startup and
//! immutable afterwards. Its multisample state must equal the negotiated
//! sample count: a mismatch with the actual render target is rejected by
//! the graphics API at render-pass time, so the plan pins the two
//! together.

use vstd::prelude::*;
use crate::surface::SurfaceConfig;
use crate::surface::SurfaceFormat;

verus! {

/// Bytes of one 32-bit float vertex component.
pub const FLOAT32_BYTES: u32 = 4;

/// The compiled pipeline as the library models it: color-target format,
/// multisample count, the packed two-position-two-texcoord vertex layout,
/// and the fixed-function choices — triangle-list topology,
/// counter-clockwise front face, back-face culling, alpha-replace
/// blending.
#[derive(Clone, Copy, Debug, PartialEq, Eq)]
pub struct PipelinePlan {
    pub format: SurfaceFormat,
    pub sample_count: u32,
    pub vertex_stride: u32,
    pub position_offset: u32,
    pub tex_coord_offset: u32,
    pub topology_triangle_list: bool,
    pub front_face_ccw: bool,
    pub cull_back_faces: bool,
    pub blend_replace: bool,
}

/// The one pipeline plan a format and sample count call for.
pub open spec fn pipeline_plan_for(format: SurfaceFormat, sample_count: u32) -> PipelinePlan {
    PipelinePlan {
        format,
        sample_count,
        vertex_stride: (4 * FLOAT32_BYTES) as u32,
        position_offset: 0u32,
        tex_coord_offset: (2 * FLOAT32_BYTES) as u32,
        topology_triangle_list: true,
        front_face_ccw: true,
        cull_back_faces: true,
        blend_replace: true,
    }
}

/// Build the pipeline plan for the configured surface and the negotiated
/// sample count. The color target format equals the surface's, the
/// multisample state equals the negotiated count, and the vertex layout
/// is the packed pair of 2-float position at offset 0 and 2-float
/// texture coordinate at offset 8, 16 bytes per vertex.
pub fn plan_pipeline(config: &SurfaceConfig, sample_count: u32) -> (p: PipelinePlan)
    ensures
        p == pipeline_plan_for(config.format, sample_count),
        p.format == config.format,
        p.sample_count == sample_count,
        p.vertex_stride == 4 * FLOAT32_BYTES,
        p.position_offset == 0,
        p.tex_coord_offset == 2 * FLOAT32_BYTES,
        p.topology_triangle_list,
        p.front_face_ccw,
        p.cull_back_faces,
        p.blend_replace,
{
    PipelinePlan {
        format: config.format,
        sample_count,
        vertex_stride: 4 * FLOAT32_BYTES,
        position_offset: 0,
        tex_coord_offset: 2 * FLOAT32_BYTES,
        topology_triangle_list: true,
        front_face_ccw: true,
        cull_back_faces: true,
        blend_replace: true,
    }
}

} // verus!
