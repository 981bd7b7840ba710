use quad_engine::pipeline::{
    bind_group_layout, build_pipeline_spec, BindingKind, BlendMode, CullMode, Topology,
    WindingOrder,
};
use quad_engine::surface::SurfaceFormat;

#[test]
fn bind_group_has_texture_then_sampler() {
    let entries = bind_group_layout();
    assert_eq!(entries.len(), 2);
    assert_eq!(entries[0].binding, 0);
    assert_eq!(entries[0].kind, BindingKind::SampledTexture2d);
    assert!(entries[0].fragment_visible);
    assert_eq!(entries[1].binding, 1);
    assert_eq!(entries[1].kind, BindingKind::FilteringSampler);
    assert!(entries[1].fragment_visible);
}

#[test]
fn pipeline_state_is_fixed() {
    let target = SurfaceFormat { code: 9, srgb: true };
    let p = build_pipeline_spec(target);
    assert_eq!(p.vertex_entry, "vs_main");
    assert_eq!(p.fragment_entry, "fs_main");
    assert_eq!(p.vertex_buffer.array_stride, 20);
    assert_eq!(p.topology, Topology::TriangleList);
    assert_eq!(p.front_face, WindingOrder::CounterClockwise);
    assert_eq!(p.cull_mode, CullMode::Back);
    assert_eq!(p.sample_count, 1);
    assert_eq!(p.blend, BlendMode::Replace);
    assert_eq!(p.target_format, target);
    assert!(!p.depth_test);
}
