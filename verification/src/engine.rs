//! The startup sequence as one decision: from what the platform reported
//! and the bundled asset's bytes to everything the GPU layer must build
//! before the render loop starts.

use vstd::prelude::*;

use crate::pipeline::{
    bind_group_layout, build_pipeline_spec, BindGroupEntry, BindingKind, BlendMode, CullMode,
    PipelineSpec, Topology, WindingOrder,
};
use crate::surface::{plan_init, spec_chosen_format, InitError, SurfaceCaps, SurfaceConfig};
use crate::texture::{color_format, decodes, PixelFormat, TextureImage};
use crate::vertex::{spec_square_vertices, square_vertices, ModelVertex};

verus! {

/// Everything startup decides, ready for the GPU layer to realize: the
/// surface configuration, the pipeline description, the bind group layout,
/// the quad's vertices and the decoded texture.
pub struct StartupPlan {
    pub config: SurfaceConfig,
    pub pipeline: PipelineSpec,
    pub bind_group: Vec<BindGroupEntry>,
    pub vertices: Vec<ModelVertex>,
    pub texture: TextureImage,
    /// The format the texture is created with: linear for a normal map,
    /// sRGB otherwise.
    pub texture_format: PixelFormat,
}

/// Runs every startup decision in the order the engine takes them: the
/// adapter must exist, the surface must report formats and modes, and the
/// asset must decode — each failure is the corresponding fatal error, the
/// adapter's before the asset's. On success the plan holds the configured
/// surface at the requested size with the chosen format, the fixed
/// pipeline against that format, the two-entry bind group, the six quad
/// vertices and the decoded texture image.
pub fn plan_startup(
    adapter: Option<SurfaceCaps>,
    width: u32,
    height: u32,
    asset: &[u8],
    is_normal_map: bool,
) -> (r: Result<StartupPlan, InitError>)
    ensures
        adapter is None ==> r == Err::<StartupPlan, InitError>(InitError::NoAdapter),
        adapter matches Some(caps) && (caps.formats@.len() == 0 || caps.present_modes@.len() == 0
            || caps.alpha_modes@.len() == 0) ==> r == Err::<StartupPlan, InitError>(
            InitError::UnsupportedSurface,
        ),
        adapter matches Some(caps) && caps.formats@.len() > 0 && caps.present_modes@.len() > 0
            && caps.alpha_modes@.len() > 0 && !decodes(asset@) ==> r == Err::<
            StartupPlan,
            InitError,
        >(InitError::TextureDecode),
        r is Ok <==> (adapter matches Some(caps) && caps.formats@.len() > 0
            && caps.present_modes@.len() > 0 && caps.alpha_modes@.len() > 0 && decodes(asset@)),
        r matches Ok(p) ==> adapter matches Some(caps) && {
            &&& p.config.width == width
            &&& p.config.height == height
            &&& Some(p.config.format) == spec_chosen_format(caps.formats@)
            &&& p.config.present_mode == caps.present_modes@[0]
            &&& p.config.alpha_mode == caps.alpha_modes@[0]
            &&& p.config.frame_latency == 2
            &&& p.pipeline.target_format == p.config.format
            &&& p.pipeline.topology == Topology::TriangleList
            &&& p.pipeline.front_face == WindingOrder::CounterClockwise
            &&& p.pipeline.cull_mode == CullMode::Back
            &&& p.pipeline.sample_count == 1
            &&& p.pipeline.blend == BlendMode::Replace
            &&& !p.pipeline.depth_test
            &&& p.pipeline.vertex_entry@ == "vs_main"@
            &&& p.pipeline.fragment_entry@ == "fs_main"@
            &&& p.bind_group@.len() == 2
            &&& p.bind_group@[0].kind == BindingKind::SampledTexture2d
            &&& p.bind_group@[1].kind == BindingKind::FilteringSampler
            &&& p.vertices@ == spec_square_vertices()
            &&& p.texture.wf()
            &&& p.texture.is_decode_of(asset@)
            &&& p.texture_format == (if is_normal_map {
                PixelFormat::Rgba8Unorm
            } else {
                PixelFormat::Rgba8UnormSrgb
            })
        },
{
    let config = match plan_init(adapter, width, height) {
        Ok(c) => c,
        Err(e) => {
            return Err(e);
        },
    };
    let texture = match TextureImage::from_bytes(asset) {
        Ok(t) => t,
        Err(e) => {
            return Err(e);
        },
    };
    Ok(
        StartupPlan {
            config,
            pipeline: build_pipeline_spec(config.format),
            bind_group: bind_group_layout(),
            vertices: square_vertices(),
            texture,
            texture_format: color_format(is_normal_map),
        },
    )
}

} // verus!
