use shader_processing::binding::{
    build_binding_set, compute_layout, render_layout, sampler_filter, BindingKind, BoundResource, ResourceId,
    SamplerFilter,
};
use shader_processing::dispatch::{dispatch_grid, invocation_in_bounds, workgroup_count, DispatchGrid, WorkgroupTile};
use shader_processing::error::{recovery_for, PipelineError, Recovery};
use shader_processing::frame::{stage_of, wgpu_render_pass, FrameCommand, FrameStage};
use shader_processing::model::FrameUniforms;
use shader_processing::pipeline::{init_shader, ShaderInfo, ShaderModel, SurfaceConfig, Topology};
use shader_processing::resources::{
    input_texture_desc, intermediate_texture_desc, plan_resources, DeviceLimits, TextureFormat, COPY_DST, COPY_SRC,
    STORAGE_BINDING, TEXTURE_BINDING,
};

fn limits() -> DeviceLimits {
    DeviceLimits { max_texture_dimension_2d: 8192, max_uniform_buffer_binding_size: 65536 }
}

fn surface(width: u32, height: u32) -> SurfaceConfig {
    SurfaceConfig { format: TextureFormat::Rgba16Float, sample_count: 4, width, height }
}

fn shader(groups: Vec<Vec<BindingKind>>) -> ShaderInfo {
    ShaderInfo { compiled: true, groups }
}

fn compute_shader() -> ShaderInfo {
    shader(vec![compute_layout()])
}

fn vertex_shader() -> ShaderInfo {
    shader(vec![])
}

fn fragment_shader() -> ShaderInfo {
    shader(vec![render_layout(SamplerFilter::Linear)])
}

fn tile() -> WorkgroupTile {
    WorkgroupTile { width: 8, height: 8 }
}

fn build(width: u32, height: u32) -> Result<ShaderModel, PipelineError> {
    init_shader(
        width,
        height,
        limits(),
        surface(1024, 768),
        &compute_shader(),
        tile(),
        &vertex_shader(),
        &fragment_shader(),
    )
}

#[test]
fn workgroup_counts_round_up() {
    assert_eq!(workgroup_count(10, 4), 3);
    assert_eq!(workgroup_count(8, 8), 1);
    assert_eq!(workgroup_count(9, 8), 2);
    assert_eq!(workgroup_count(0, 8), 0);
    assert_eq!(workgroup_count(u32::MAX, 1), u32::MAX);
    assert_eq!(workgroup_count(u32::MAX, 16), 268_435_456);
}

#[test]
fn grid_covers_odd_sized_texture() {
    let g = dispatch_grid(1001, 17, tile());
    assert_eq!(g, DispatchGrid { x: 126, y: 3, z: 1 });
    assert!(g.x * 8 >= 1001 && (g.x - 1) * 8 < 1001);
    assert!(g.y * 8 >= 17 && (g.y - 1) * 8 < 17);
}

#[test]
fn overshooting_invocations_are_out_of_bounds() {
    assert!(invocation_in_bounds(1000, 16, 1001, 17));
    assert!(!invocation_in_bounds(1001, 0, 1001, 17));
    assert!(!invocation_in_bounds(0, 17, 1001, 17));
}

#[test]
fn intermediate_texture_usage_covers_both_stages() {
    for (w, h) in [(1u32, 1u32), (256, 256), (8192, 3), (8192, 8192)] {
        let d = intermediate_texture_desc(w, h, limits()).unwrap();
        assert_eq!(d.usage & (STORAGE_BINDING | TEXTURE_BINDING), STORAGE_BINDING | TEXTURE_BINDING);
        assert_eq!(d.usage & (COPY_SRC | COPY_DST), COPY_SRC | COPY_DST);
        assert_eq!(d.format, TextureFormat::Rgba8Unorm);
        assert_eq!((d.width, d.height), (w, h));
    }
    let d = input_texture_desc(640, 480, limits()).unwrap();
    assert_eq!(d.usage, TEXTURE_BINDING | COPY_DST);
}

#[test]
fn textures_over_device_limits_are_refused() {
    assert_eq!(intermediate_texture_desc(8193, 1, limits()), Err(PipelineError::ResourceLimitExceeded));
    assert_eq!(intermediate_texture_desc(1, 8193, limits()), Err(PipelineError::ResourceLimitExceeded));
    assert_eq!(input_texture_desc(0, 10, limits()), Err(PipelineError::ResourceLimitExceeded));
    let small = DeviceLimits { max_texture_dimension_2d: 8192, max_uniform_buffer_binding_size: 8 };
    assert_eq!(
        plan_resources(16, 16, small, &FrameUniforms::kinds()).unwrap_err(),
        PipelineError::ResourceLimitExceeded
    );
}

#[test]
fn plan_resources_describes_everything() {
    let p = plan_resources(256, 128, limits(), &FrameUniforms::kinds()).unwrap();
    assert_eq!((p.input.width, p.input.height), (256, 128));
    assert_eq!((p.intermediate.width, p.intermediate.height), (256, 128));
    assert_eq!(p.uniform.size, 12);
    assert_eq!(p.vertex_bytes.len(), 32);
}

#[test]
fn sampler_falls_back_to_nearest() {
    assert_eq!(sampler_filter(true), SamplerFilter::Linear);
    assert_eq!(sampler_filter(false), SamplerFilter::Nearest);
    assert!(!TextureFormat::Rgba32Float.filterable());
    assert!(TextureFormat::Rgba8Unorm.filterable());
}

#[test]
fn binding_sets_must_follow_layout_order() {
    let layout = compute_layout();
    let good = vec![
        BoundResource { kind: BindingKind::UniformBuffer, resource: ResourceId::UniformBuffer },
        BoundResource { kind: BindingKind::SampledTexture, resource: ResourceId::InputTexture },
        BoundResource { kind: BindingKind::StorageTexture, resource: ResourceId::IntermediateTexture },
    ];
    let set = build_binding_set(&layout, &good).unwrap();
    assert_eq!(set.resources, good);
    let mut swapped = good.clone();
    swapped.swap(1, 2);
    assert_eq!(build_binding_set(&layout, &swapped).unwrap_err(), PipelineError::BindingMismatch);
    assert_eq!(build_binding_set(&layout, &good[..2].to_vec()).unwrap_err(), PipelineError::BindingMismatch);
}

#[test]
fn build_pipeline_for_image() {
    let p = build(256, 256).unwrap();
    assert_eq!(p.grid, DispatchGrid { x: 32, y: 32, z: 1 });
    assert_eq!(p.render.color_format, TextureFormat::Rgba16Float);
    assert_eq!(p.render.sample_count, 4);
    assert_eq!(p.render.topology, Topology::TriangleStrip);
    assert_eq!(p.render.vertex_count, 4);
    assert_eq!(p.render_bindings.resources[0].resource, ResourceId::IntermediateTexture);
    assert_eq!(p.compute_bindings.resources[2].resource, ResourceId::IntermediateTexture);
    assert_eq!(p.compute_bindings.resources[2].kind, BindingKind::StorageTexture);
}

#[test]
fn build_pipeline_errors() {
    let mut bad = compute_shader();
    bad.compiled = false;
    let r = init_shader(
        256, 256, limits(), surface(1, 1), &bad, tile(), &vertex_shader(), &fragment_shader(),
    );
    assert_eq!(r.unwrap_err(), PipelineError::ShaderCompileError);
    assert_eq!(build(0, 256).unwrap_err(), PipelineError::ResourceLimitExceeded);
    let reordered = shader(vec![vec![BindingKind::SampledTexture, BindingKind::UniformBuffer, BindingKind::StorageTexture]]);
    let r = init_shader(
        256, 256, limits(), surface(1, 1), &reordered, tile(), &vertex_shader(), &fragment_shader(),
    );
    assert_eq!(r.unwrap_err(), PipelineError::BindingMismatch);
}

#[test]
fn frame_dispatches_before_rendering() {
    let p = build(256, 256).unwrap();
    let f = wgpu_render_pass(&p, &FrameUniforms { time_bits: 0, effect_bits: 0, step_count: 0 });
    let dispatch = f.commands.iter().position(|c| matches!(c, FrameCommand::Dispatch(_))).unwrap();
    let upload = f.commands.iter().position(|c| *c == FrameCommand::WriteUniform).unwrap();
    assert!(upload < dispatch);
    for (i, c) in f.commands.iter().enumerate() {
        if matches!(c, FrameCommand::SetRenderBindGroup(_) | FrameCommand::Draw { .. }) {
            assert!(dispatch < i);
        }
    }
    assert_eq!(f.commands.last(), Some(&FrameCommand::Present));
    assert!(f.commands.contains(&FrameCommand::Draw { vertex_count: 4, instance_count: 1 }));
}

#[test]
fn default_parameters_on_square_image() {
    let p = build(256, 256).unwrap();
    let f = wgpu_render_pass(&p, &FrameUniforms { time_bits: 0.0f32.to_bits(), effect_bits: 0.0f32.to_bits(), step_count: 0 });
    assert_eq!(f.uniform_bytes, vec![0u8; 12]);
    assert_eq!(f.commands[3], FrameCommand::Dispatch(DispatchGrid { x: 32, y: 32, z: 1 }));
    assert_eq!(f.commands.len(), 10);
}

#[test]
fn changed_effect_reaches_next_frame_only() {
    let p = build(256, 256).unwrap();
    let first = FrameUniforms { time_bits: 0.5f32.to_bits(), effect_bits: 0.0f32.to_bits(), step_count: 10 };
    let second = FrameUniforms { effect_bits: 0.8f32.to_bits(), ..first };
    let f1 = wgpu_render_pass(&p, &first);
    let before = f1.uniform_bytes.clone();
    let f2 = wgpu_render_pass(&p, &second);
    assert_eq!(f1.uniform_bytes, before);
    assert_ne!(f1.uniform_bytes, f2.uniform_bytes);
    let l = &p.resources.uniform;
    assert_eq!(FrameUniforms::from_bytes(l, &f2.uniform_bytes), Some(second));
    assert_eq!(FrameUniforms::from_bytes(l, &f1.uniform_bytes), Some(first));
    assert_eq!(&f2.uniform_bytes[4..8], &0.8f32.to_le_bytes());
}

#[test]
fn resize_rebuilds_render_side_only() {
    let mut p = build(256, 256).unwrap();
    let input = p.resources.input;
    let intermediate = p.resources.intermediate;
    let grid = p.grid;
    let compute_set = p.compute_bindings.resources.clone();
    let resized = SurfaceConfig { format: TextureFormat::Bgra8UnormSrgb, sample_count: 1, width: 1920, height: 1080 };
    assert_eq!(p.rebuild_for_surface(resized, &vertex_shader(), &fragment_shader()), Ok(()));
    assert_eq!(p.surface, resized);
    assert_eq!(p.render.color_format, TextureFormat::Bgra8UnormSrgb);
    assert_eq!(p.render.sample_count, 1);
    assert_eq!(p.resources.input, input);
    assert_eq!(p.resources.intermediate, intermediate);
    assert_eq!(p.grid, grid);
    assert_eq!(p.compute_bindings.resources, compute_set);
}

#[test]
fn failed_resize_changes_nothing() {
    let mut p = build(256, 256).unwrap();
    let mut broken = fragment_shader();
    broken.compiled = false;
    let r = p.rebuild_for_surface(surface(10, 10), &vertex_shader(), &broken);
    assert_eq!(r, Err(PipelineError::ShaderCompileError));
    assert_eq!(p.surface, surface(1024, 768));
    let r = p.rebuild_for_surface(surface(10, 10), &fragment_shader(), &fragment_shader());
    assert_eq!(r, Err(PipelineError::BindingMismatch));
    assert_eq!(p.render.color_format, TextureFormat::Rgba16Float);
}

#[test]
fn surface_loss_is_recovered_by_rebuilding() {
    assert_eq!(recovery_for(PipelineError::SurfaceLost), Recovery::RebuildSurface);
    assert_eq!(recovery_for(PipelineError::ShaderCompileError), Recovery::Abort);
    assert_eq!(recovery_for(PipelineError::BindingMismatch), Recovery::Abort);
    assert_eq!(recovery_for(PipelineError::ResourceLimitExceeded), Recovery::Abort);
}

#[test]
fn init_shader_reports_binding_mismatch_per_stage() {
    let swapped = shader(vec![vec![BindingKind::Sampler(SamplerFilter::Linear), BindingKind::SampledTexture]]);
    let r = init_shader(64, 64, limits(), surface(64, 64), &compute_shader(), tile(), &vertex_shader(), &swapped);
    assert_eq!(r.unwrap_err(), PipelineError::BindingMismatch);
    let missing = shader(vec![vec![BindingKind::UniformBuffer, BindingKind::SampledTexture]]);
    let r = init_shader(64, 64, limits(), surface(64, 64), &missing, tile(), &vertex_shader(), &fragment_shader());
    assert_eq!(r.unwrap_err(), PipelineError::BindingMismatch);
    let r = init_shader(64, 64, limits(), surface(64, 64), &compute_shader(), tile(), &fragment_shader(), &fragment_shader());
    assert_eq!(r.unwrap_err(), PipelineError::BindingMismatch);
}

#[test]
fn frame_has_one_upload_and_one_writer() {
    let p = build(100, 30).unwrap();
    let f = wgpu_render_pass(&p, &FrameUniforms { time_bits: 3, effect_bits: 4, step_count: 5 });
    assert_eq!(f.commands.iter().filter(|c| **c == FrameCommand::WriteUniform).count(), 1);
    assert_eq!(f.commands.iter().filter(|c| matches!(c, FrameCommand::Dispatch(_))).count(), 1);
    assert_eq!(f.commands[3], FrameCommand::Dispatch(DispatchGrid { x: 13, y: 4, z: 1 }));
    assert_eq!(
        f.commands,
        vec![
            FrameCommand::WriteUniform,
            FrameCommand::SetComputePipeline,
            FrameCommand::SetComputeBindGroup(0),
            FrameCommand::Dispatch(DispatchGrid { x: 13, y: 4, z: 1 }),
            FrameCommand::BeginRenderPass,
            FrameCommand::SetRenderPipeline,
            FrameCommand::SetRenderBindGroup(0),
            FrameCommand::SetVertexBuffer(0),
            FrameCommand::Draw { vertex_count: 4, instance_count: 1 },
            FrameCommand::Present,
        ]
    );
    assert_eq!(f.uniform_bytes, vec![3, 0, 0, 0, 4, 0, 0, 0, 5, 0, 0, 0]);
}

#[test]
fn init_shader_describes_both_stages() {
    let m = build(640, 480).unwrap();
    assert_eq!(m.resources.input.width, 640);
    assert_eq!(m.resources.input.format, TextureFormat::Rgba8UnormSrgb);
    assert_eq!(m.resources.intermediate.height, 480);
    assert_eq!(m.resources.intermediate.usage, STORAGE_BINDING | TEXTURE_BINDING | COPY_SRC | COPY_DST);
    assert_eq!(m.compute_layout, compute_layout());
    assert_eq!(m.render_bindings.layout, render_layout(SamplerFilter::Linear));
    assert_eq!(m.render_bindings.resources[1].resource, ResourceId::Sampler);
    assert_eq!(m.render.groups.len(), 1);
    assert_eq!(m.grid, DispatchGrid { x: 80, y: 60, z: 1 });
}

#[test]
fn frame_walks_stages_forward() {
    let p = build(64, 64).unwrap();
    let f = wgpu_render_pass(&p, &FrameUniforms { time_bits: 0, effect_bits: 0, step_count: 1 });
    let stages: Vec<FrameStage> = f.commands.iter().map(|c| stage_of(*c)).collect();
    assert_eq!(stages[0], FrameStage::UniformUpdate);
    assert_eq!(stages[3], FrameStage::ComputeDispatch);
    assert_eq!(stages[4], FrameStage::RenderDispatch);
    assert_eq!(stages[9], FrameStage::Presented);
    assert_eq!(FrameStage::Presented.next(), FrameStage::Idle);
    assert_eq!(FrameStage::Idle.next(), FrameStage::UniformUpdate);
    assert_eq!(FrameStage::ComputeDispatch.next(), FrameStage::RenderDispatch);
}
