//! Assembling the compute and render pipelines: the model of both stages,
//! built once for a source image and rebuilt on the render side when the
//! presentation surface changes.

use vstd::prelude::*;
use crate::binding::{
    build_binding_set, compute_layout, render_layout, same_layout, sampler_filter, spec_compute_layout,
    spec_render_layout, BindingKind, BindingSet, BoundResource, ResourceId, SamplerFilter,
};
use crate::dispatch::{dispatch_grid, spec_grid, DispatchGrid, WorkgroupTile};
use crate::error::PipelineError;
use crate::layout::block_size;
use crate::model::{frame_kinds, FrameUniforms};
use crate::resources::{extent_fits, plan_resources, DeviceLimits, ResourcePlan, TextureFormat};

verus! {

/// How the render stage assembles vertices into triangles.
#[derive(Clone, Copy, Debug, PartialEq, Eq, Structural)]
pub enum Topology {
    TriangleList,
    TriangleStrip,
}

/// What the presentation surface asks of the render stage.
#[derive(Clone, Copy, Debug, PartialEq, Eq, Structural)]
pub struct SurfaceConfig {
    pub format: TextureFormat,
    pub sample_count: u32,
    pub width: u32,
    pub height: u32,
}

/// A shader program as loaded: whether it compiled, and the slot tables of
/// the bind groups it declares, in group order.
#[derive(Debug)]
pub struct ShaderInfo {
    pub compiled: bool,
    pub groups: Vec<Vec<BindingKind>>,
}

pub open spec fn group_views(gs: Seq<Vec<BindingKind>>) -> Seq<Seq<BindingKind>> {
    gs.map_values(|g: Vec<BindingKind>| g@)
}

impl ShaderInfo {
    pub open spec fn declared(&self) -> Seq<Seq<BindingKind>> {
        group_views(self.groups@)
    }
}

/// The bind groups the compute shader must declare.
pub open spec fn compute_groups() -> Seq<Seq<BindingKind>> {
    seq![spec_compute_layout()]
}

/// The bind groups the fragment shader must declare.
pub open spec fn fragment_groups() -> Seq<Seq<BindingKind>> {
    seq![spec_render_layout(SamplerFilter::Linear)]
}

/// The vertex shader declares no bind groups.
pub open spec fn vertex_groups() -> Seq<Seq<BindingKind>> {
    Seq::<Seq<BindingKind>>::empty()
}

/// The render shaders declare the render stage's bind groups.
pub open spec fn render_groups_ok(vertex_shader: &ShaderInfo, fragment_shader: &ShaderInfo) -> bool {
    vertex_shader.declared() == vertex_groups() && fragment_shader.declared() == fragment_groups()
}

/// A render pipeline to create.
#[derive(Debug)]
pub struct RenderPipelineDesc {
    pub groups: Vec<Vec<BindingKind>>,
    pub color_format: TextureFormat,
    pub sample_count: u32,
    pub topology: Topology,
    /// Bytes per vertex: two `f32` coordinates.
    pub vertex_stride: u32,
    /// Vertices per draw: the four corners of the quad.
    pub vertex_count: u32,
}

impl RenderPipelineDesc {
    /// The pipeline draws the quad as a strip into `surface`, with bind
    /// groups `groups`.
    pub open spec fn fits(&self, surface: SurfaceConfig, groups: Seq<Seq<BindingKind>>) -> bool {
        &&& group_views(self.groups@) == groups
        &&& self.color_format == surface.format
        &&& self.sample_count == surface.sample_count
        &&& self.topology == Topology::TriangleStrip
        &&& self.vertex_stride == 8
        &&& self.vertex_count == 4
    }
}

/// Whether two lists of bind groups agree group by group, slot by slot.
pub fn groups_match(a: &Vec<Vec<BindingKind>>, b: &Vec<Vec<BindingKind>>) -> (r: bool)
    ensures
        r == (group_views(a@) == group_views(b@)),
{
    if a.len() != b.len() {
        assert(group_views(a@).len() != group_views(b@).len());
        return false;
    }
    let mut i: usize = 0;
    while i < a.len()
        invariant
            i <= a@.len(),
            a@.len() == b@.len(),
            forall|k: int| 0 <= k < i ==> (#[trigger] a@[k])@ == b@[k]@,
        decreases a@.len() - i,
    {
        if !same_layout(&a[i], &b[i]) {
            assert(group_views(a@)[i as int] != group_views(b@)[i as int]);
            return false;
        }
        i = i + 1;
    }
    assert(group_views(a@) =~= group_views(b@));
    true
}

/// The compute stage's resources: the uniform block, the input texture and
/// the intermediate texture it writes.
pub open spec fn compute_resources() -> Seq<BoundResource> {
    seq![
        BoundResource { kind: BindingKind::UniformBuffer, resource: ResourceId::UniformBuffer },
        BoundResource { kind: BindingKind::SampledTexture, resource: ResourceId::InputTexture },
        BoundResource { kind: BindingKind::StorageTexture, resource: ResourceId::IntermediateTexture },
    ]
}

/// The render stage's resources: the intermediate texture and its sampler.
pub open spec fn render_resources() -> Seq<BoundResource> {
    seq![
        BoundResource { kind: BindingKind::SampledTexture, resource: ResourceId::IntermediateTexture },
        BoundResource { kind: BindingKind::Sampler(SamplerFilter::Linear), resource: ResourceId::Sampler },
    ]
}

/// A compute stage that writes the intermediate texture from the source
/// image, and a render stage that samples it onto the surface.
#[derive(Debug)]
pub struct ShaderModel {
    pub resources: ResourcePlan,
    pub compute_layout: Vec<BindingKind>,
    pub compute_bindings: BindingSet,
    pub tile: WorkgroupTile,
    pub grid: DispatchGrid,
    pub render: RenderPipelineDesc,
    pub render_bindings: BindingSet,
    pub surface: SurfaceConfig,
}

impl ShaderModel {
    /// The surface-independent half: resources, compute stage, and the
    /// binding set through which the render stage reads the intermediate
    /// texture.
    pub open spec fn compute_side_ok(&self, width: u32, height: u32, tile: WorkgroupTile) -> bool {
        &&& self.resources.describes(width, height, frame_kinds())
        &&& self.compute_layout@ == spec_compute_layout()
        &&& self.compute_bindings.wf()
        &&& self.compute_bindings.layout@ == spec_compute_layout()
        &&& self.compute_bindings.resources@ == compute_resources()
        &&& self.tile == tile
        &&& self.grid == spec_grid(width as nat, height as nat, tile)
        &&& self.render_bindings.wf()
        &&& self.render_bindings.layout@ == spec_render_layout(SamplerFilter::Linear)
        &&& self.render_bindings.resources@ == render_resources()
    }

    /// The render stage draws into `surface`.
    pub open spec fn render_side_ok(&self, surface: SurfaceConfig) -> bool {
        &&& self.surface == surface
        &&& self.render.fits(surface, fragment_groups())
    }

    /// Both stages agree with the intermediate texture's extent, the tile
    /// and the surface the model holds.
    pub open spec fn wf(&self) -> bool {
        &&& self.tile.valid()
        &&& self.compute_side_ok(self.resources.intermediate.width, self.resources.intermediate.height, self.tile)
        &&& self.render_side_ok(self.surface)
    }

    /// Rebuilds the surface-dependent render pipeline for a resized or
    /// recreated `surface`, keeping the input and intermediate textures, the
    /// compute stage and the binding sets. A render shader that did not
    /// compile gives `ShaderCompileError`; else render shaders whose bind
    /// groups are not the render stage's give `BindingMismatch`. On failure
    /// nothing changes.
    pub fn rebuild_for_surface(
        &mut self,
        surface: SurfaceConfig,
        vertex_shader: &ShaderInfo,
        fragment_shader: &ShaderInfo,
    ) -> (r: Result<(), PipelineError>)
        ensures
            !(vertex_shader.compiled && fragment_shader.compiled) ==> r == Err::<(), PipelineError>(
                PipelineError::ShaderCompileError,
            ),
            vertex_shader.compiled && fragment_shader.compiled && !render_groups_ok(vertex_shader, fragment_shader)
                ==> r == Err::<(), PipelineError>(PipelineError::BindingMismatch),
            r is Ok <==> vertex_shader.compiled && fragment_shader.compiled && render_groups_ok(
                vertex_shader,
                fragment_shader,
            ),
            final(self).resources == old(self).resources,
            final(self).compute_layout == old(self).compute_layout,
            final(self).compute_bindings == old(self).compute_bindings,
            final(self).tile == old(self).tile,
            final(self).grid == old(self).grid,
            final(self).render_bindings == old(self).render_bindings,
            r is Ok ==> final(self).render_side_ok(surface),
            r is Ok && old(self).wf() ==> final(self).wf(),
            r is Err ==> final(self).render == old(self).render && final(self).surface == old(self).surface,
    {
        let render = match assemble_surface_stage(surface, vertex_shader, fragment_shader) {
            Ok(d) => d,
            Err(e) => return Err(e),
        };
        self.render = render;
        self.surface = surface;
        Ok(())
    }
}

/// Builds the render pipeline for `surface`: both shaders must have compiled
/// and declare the render stage's bind groups.
fn assemble_surface_stage(surface: SurfaceConfig, vertex_shader: &ShaderInfo, fragment_shader: &ShaderInfo) -> (r:
    Result<RenderPipelineDesc, PipelineError>)
    ensures
        !(vertex_shader.compiled && fragment_shader.compiled) ==> r == Err::<RenderPipelineDesc, PipelineError>(
            PipelineError::ShaderCompileError,
        ),
        vertex_shader.compiled && fragment_shader.compiled && !render_groups_ok(vertex_shader, fragment_shader)
            ==> r == Err::<RenderPipelineDesc, PipelineError>(PipelineError::BindingMismatch),
        r is Ok <==> vertex_shader.compiled && fragment_shader.compiled && render_groups_ok(
            vertex_shader,
            fragment_shader,
        ),
        r matches Ok(d) ==> d.fits(surface, fragment_groups()),
{
    if !vertex_shader.compiled || !fragment_shader.compiled {
        return Err(PipelineError::ShaderCompileError);
    }
    let groups = vec![render_layout(SamplerFilter::Linear)];
    let no_groups: Vec<Vec<BindingKind>> = Vec::new();
    assert(group_views(groups@) =~= fragment_groups());
    assert(group_views(no_groups@) =~= vertex_groups());
    if !groups_match(&vertex_shader.groups, &no_groups) || !groups_match(&fragment_shader.groups, &groups) {
        return Err(PipelineError::BindingMismatch);
    }
    Ok(RenderPipelineDesc {
        groups,
        color_format: surface.format,
        sample_count: surface.sample_count,
        topology: Topology::TriangleStrip,
        vertex_stride: 8,
        vertex_count: 4,
    })
}

/// Builds both stages for a `width` x `height` source image, a compute
/// shader working in tiles of `tile`, and `surface`: the input texture, the
/// intermediate texture the compute stage writes and the render stage
/// samples, the uniform buffer, the quad, both binding sets and both
/// pipelines. A shader that did not compile gives `ShaderCompileError`; else
/// an image or uniform block over the device's limits gives
/// `ResourceLimitExceeded`; else shaders whose bind groups are not their
/// stage's give `BindingMismatch`.
pub fn init_shader(
    width: u32,
    height: u32,
    limits: DeviceLimits,
    surface: SurfaceConfig,
    compute_shader: &ShaderInfo,
    tile: WorkgroupTile,
    vertex_shader: &ShaderInfo,
    fragment_shader: &ShaderInfo,
) -> (r: Result<ShaderModel, PipelineError>)
    requires
        tile.valid(),
    ensures
        !(compute_shader.compiled && vertex_shader.compiled && fragment_shader.compiled) ==> r == Err::<
            ShaderModel,
            PipelineError,
        >(PipelineError::ShaderCompileError),
        compute_shader.compiled && vertex_shader.compiled && fragment_shader.compiled && !(extent_fits(
            width,
            height,
            limits,
        ) && block_size(frame_kinds()) <= limits.max_uniform_buffer_binding_size) ==> r == Err::<
            ShaderModel,
            PipelineError,
        >(PipelineError::ResourceLimitExceeded),
        compute_shader.compiled && vertex_shader.compiled && fragment_shader.compiled && extent_fits(
            width,
            height,
            limits,
        ) && block_size(frame_kinds()) <= limits.max_uniform_buffer_binding_size && !(compute_shader.declared()
            == compute_groups() && render_groups_ok(vertex_shader, fragment_shader)) ==> r == Err::<
            ShaderModel,
            PipelineError,
        >(PipelineError::BindingMismatch),
        r is Ok <==> compute_shader.compiled && vertex_shader.compiled && fragment_shader.compiled && extent_fits(
            width,
            height,
            limits,
        ) && block_size(frame_kinds()) <= limits.max_uniform_buffer_binding_size && compute_shader.declared()
            == compute_groups() && render_groups_ok(vertex_shader, fragment_shader),
        r matches Ok(m) ==> m.wf() && m.compute_side_ok(width, height, tile) && m.render_side_ok(surface),
{
    if !compute_shader.compiled || !vertex_shader.compiled || !fragment_shader.compiled {
        return Err(PipelineError::ShaderCompileError);
    }
    let resources = match plan_resources(width, height, limits, &FrameUniforms::kinds()) {
        Ok(p) => p,
        Err(e) => return Err(e),
    };
    let expected = vec![compute_layout()];
    assert(group_views(expected@) =~= compute_groups());
    if !groups_match(&compute_shader.groups, &expected) {
        return Err(PipelineError::BindingMismatch);
    }
    let render = match assemble_surface_stage(surface, vertex_shader, fragment_shader) {
        Ok(d) => d,
        Err(e) => return Err(e),
    };
    let compute_set = vec![
        BoundResource { kind: BindingKind::UniformBuffer, resource: ResourceId::UniformBuffer },
        BoundResource { kind: BindingKind::SampledTexture, resource: ResourceId::InputTexture },
        BoundResource { kind: BindingKind::StorageTexture, resource: ResourceId::IntermediateTexture },
    ];
    assert(compute_set@ =~= compute_resources());
    let compute_bindings = match build_binding_set(&expected[0], &compute_set) {
        Ok(s) => s,
        Err(e) => return Err(e),
    };
    let filter = sampler_filter(resources.intermediate.format.filterable());
    let render_set = vec![
        BoundResource { kind: BindingKind::SampledTexture, resource: ResourceId::IntermediateTexture },
        BoundResource { kind: BindingKind::Sampler(filter), resource: ResourceId::Sampler },
    ];
    assert(render_set@ =~= render_resources());
    let layout = render_layout(filter);
    let render_bindings = match build_binding_set(&layout, &render_set) {
        Ok(s) => s,
        Err(e) => return Err(e),
    };
    let grid = dispatch_grid(width, height, tile);
    Ok(ShaderModel {
        resources,
        compute_layout: expected[0].clone(),
        compute_bindings,
        tile,
        grid,
        render,
        render_bindings,
        surface,
    })
}

} // verus!
