//! The pipeline builder: the complete, immutable description of the one
//! render pipeline the engine builds — shader entry points, vertex layout,
//! fixed-function state and the bind group holding the texture and sampler.

use vstd::prelude::*;

use crate::surface::SurfaceFormat;
use crate::vertex::{vertex_layout, VertexLayout};

verus! {

/// How vertices are assembled into primitives.
#[derive(Clone, Copy, Debug, PartialEq, Eq, Structural)]
pub enum Topology {
    PointList,
    LineList,
    TriangleList,
    TriangleStrip,
}

/// Which winding order counts as the front of a triangle.
#[derive(Clone, Copy, Debug, PartialEq, Eq, Structural)]
pub enum WindingOrder {
    CounterClockwise,
    Clockwise,
}

/// Which faces are culled before rasterization.
#[derive(Clone, Copy, Debug, PartialEq, Eq, Structural)]
pub enum CullMode {
    Off,
    Front,
    Back,
}

/// How a fragment's color and alpha combine with the target.
#[derive(Clone, Copy, Debug, PartialEq, Eq, Structural)]
pub enum BlendMode {
    /// The fragment replaces the target in both color and alpha.
    Replace,
    /// Standard source-over alpha blending.
    AlphaOver,
}

/// One entry of the bind group layout.
#[derive(Clone, Copy, Debug, PartialEq, Eq, Structural)]
pub enum BindingKind {
    /// A sampled 2D float texture, filterable, not multisampled.
    SampledTexture2d,
    /// A filtering sampler.
    FilteringSampler,
}

/// One slot of the bind group layout: its binding index, what is bound
/// there, and whether the fragment stage sees it.
#[derive(Clone, Copy, Debug, PartialEq, Eq, Structural)]
pub struct BindGroupEntry {
    pub binding: u32,
    pub kind: BindingKind,
    pub fragment_visible: bool,
}

/// The complete description of the engine's one render pipeline.
#[derive(Clone, Copy, Debug)]
pub struct PipelineSpec {
    /// Entry point of the vertex stage in the shader module.
    pub vertex_entry: &'static str,
    /// Entry point of the fragment stage in the shader module.
    pub fragment_entry: &'static str,
    /// Layout of the one vertex buffer the vertex stage reads.
    pub vertex_buffer: VertexLayout,
    pub topology: Topology,
    pub front_face: WindingOrder,
    pub cull_mode: CullMode,
    /// Samples per pixel; 1 means no multisampling.
    pub sample_count: u32,
    pub blend: BlendMode,
    /// The color target format: the surface's chosen format.
    pub target_format: SurfaceFormat,
    /// Whether a depth buffer is attached.
    pub depth_test: bool,
}

/// The layout of the engine's one bind group: a sampled texture at binding
/// 0 and a filtering sampler at binding 1, both visible to the fragment
/// stage only.
pub fn bind_group_layout() -> (entries: Vec<BindGroupEntry>)
    ensures
        entries@.len() == 2,
        entries@[0] == (BindGroupEntry {
            binding: 0,
            kind: BindingKind::SampledTexture2d,
            fragment_visible: true,
        }),
        entries@[1] == (BindGroupEntry {
            binding: 1,
            kind: BindingKind::FilteringSampler,
            fragment_visible: true,
        }),
{
    let mut entries: Vec<BindGroupEntry> = Vec::new();
    entries.push(
        BindGroupEntry { binding: 0, kind: BindingKind::SampledTexture2d, fragment_visible: true },
    );
    entries.push(
        BindGroupEntry { binding: 1, kind: BindingKind::FilteringSampler, fragment_visible: true },
    );
    entries
}

/// Assembles the render pipeline description for a surface format:
/// triangle-list topology, counter-clockwise front faces, back-face
/// culling, a single sample, replace blending against the surface format,
/// no depth buffer, the quad's vertex layout, and the `vs_main` / `fs_main`
/// shader entry points.
pub fn build_pipeline_spec(target_format: SurfaceFormat) -> (p: PipelineSpec)
    ensures
        p.vertex_entry@ == "vs_main"@,
        p.fragment_entry@ == "fs_main"@,
        p.vertex_buffer.position_components == 3,
        p.vertex_buffer.tex_coord_components == 2,
        p.vertex_buffer.position_offset == 0,
        p.vertex_buffer.tex_coord_offset == 4 * p.vertex_buffer.position_components,
        p.vertex_buffer.array_stride == 4 * (p.vertex_buffer.position_components
            + p.vertex_buffer.tex_coord_components),
        p.topology == Topology::TriangleList,
        p.front_face == WindingOrder::CounterClockwise,
        p.cull_mode == CullMode::Back,
        p.sample_count == 1,
        p.blend == BlendMode::Replace,
        p.target_format == target_format,
        !p.depth_test,
{
    PipelineSpec {
        vertex_entry: "vs_main",
        fragment_entry: "fs_main",
        vertex_buffer: vertex_layout(),
        topology: Topology::TriangleList,
        front_face: WindingOrder::CounterClockwise,
        cull_mode: CullMode::Back,
        sample_count: 1,
        blend: BlendMode::Replace,
        target_format,
        depth_test: false,
    }
}

} // verus!
