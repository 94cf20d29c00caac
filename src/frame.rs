//! The frame orchestrator: the ordered command sequence of each frame, in
//! which the uniform upload precedes the compute dispatch and the dispatch
//! precedes every render command that reads its output.

use vstd::prelude::*;
use crate::bytes::bytes_to_words;
use crate::dispatch::{lemma_grid_covers_every_pixel, lemma_grid_smallest_cover, spec_grid, DispatchGrid, WorkgroupTile};
use crate::model::{frame_kinds, FrameUniforms};
use crate::pipeline::ShaderModel;
use crate::uniform::{block_bytes, field_values, lemma_block_round_trip, values_fit};

verus! {

/// One step of a frame, in submission order.
#[derive(Clone, Copy, Debug, PartialEq, Eq, Structural)]
pub enum FrameCommand {
    /// Upload the frame's uniform bytes to the uniform buffer.
    WriteUniform,
    SetComputePipeline,
    SetComputeBindGroup(u32),
    /// Run the compute stage over a grid of workgroups; it writes the
    /// intermediate texture.
    Dispatch(DispatchGrid),
    BeginRenderPass,
    SetRenderPipeline,
    SetRenderBindGroup(u32),
    SetVertexBuffer(u32),
    Draw { vertex_count: u32, instance_count: u32 },
    /// Hand the finished frame to the presentation surface.
    Present,
}

/// The states a frame passes through, in order, before it returns to idle.
#[derive(Clone, Copy, Debug, PartialEq, Eq, Structural)]
pub enum FrameStage {
    Idle,
    UniformUpdate,
    ComputeDispatch,
    RenderDispatch,
    Presented,
}

impl FrameStage {
    pub open spec fn rank(self) -> nat {
        match self {
            FrameStage::Idle => 0,
            FrameStage::UniformUpdate => 1,
            FrameStage::ComputeDispatch => 2,
            FrameStage::RenderDispatch => 3,
            FrameStage::Presented => 4,
        }
    }

    /// The state that follows this one; after presenting, the orchestrator
    /// is idle again.
    pub fn next(self) -> (r: FrameStage)
        ensures
            self != FrameStage::Presented ==> r.rank() == self.rank() + 1,
            self == FrameStage::Presented ==> r == FrameStage::Idle,
    {
        match self {
            FrameStage::Idle => FrameStage::UniformUpdate,
            FrameStage::UniformUpdate => FrameStage::ComputeDispatch,
            FrameStage::ComputeDispatch => FrameStage::RenderDispatch,
            FrameStage::RenderDispatch => FrameStage::Presented,
            FrameStage::Presented => FrameStage::Idle,
        }
    }
}

pub open spec fn spec_stage_of(c: FrameCommand) -> FrameStage {
    match c {
        FrameCommand::WriteUniform => FrameStage::UniformUpdate,
        FrameCommand::SetComputePipeline => FrameStage::ComputeDispatch,
        FrameCommand::SetComputeBindGroup(_) => FrameStage::ComputeDispatch,
        FrameCommand::Dispatch(_) => FrameStage::ComputeDispatch,
        FrameCommand::Present => FrameStage::Presented,
        _ => FrameStage::RenderDispatch,
    }
}

/// The state of the frame in which `c` is issued.
pub fn stage_of(c: FrameCommand) -> (r: FrameStage)
    ensures
        r == spec_stage_of(c),
{
    match c {
        FrameCommand::WriteUniform => FrameStage::UniformUpdate,
        FrameCommand::SetComputePipeline => FrameStage::ComputeDispatch,
        FrameCommand::SetComputeBindGroup(_) => FrameStage::ComputeDispatch,
        FrameCommand::Dispatch(_) => FrameStage::ComputeDispatch,
        FrameCommand::Present => FrameStage::Presented,
        _ => FrameStage::RenderDispatch,
    }
}

/// The commands walk the frame's states forward, never back.
pub open spec fn stages_in_order(cs: Seq<FrameCommand>) -> bool {
    forall|i: int, j: int|
        0 <= i < j < cs.len() ==> spec_stage_of(#[trigger] cs[i]).rank() <= spec_stage_of(#[trigger] cs[j]).rank()
}

/// A command that writes the intermediate texture.
pub open spec fn writes_intermediate(c: FrameCommand) -> bool {
    c is Dispatch
}

/// A command of the compute-then-render frame that reads the intermediate
/// texture: binding it for the render stage, or drawing with it bound.
pub open spec fn reads_intermediate(c: FrameCommand) -> bool {
    c is SetRenderBindGroup || c is Draw
}

/// Every command that reads the intermediate texture comes after one that
/// writes it.
pub open spec fn write_precedes_read(cs: Seq<FrameCommand>) -> bool {
    forall|r: int|
        0 <= r < cs.len() && reads_intermediate(#[trigger] cs[r]) ==> exists|w: int|
            0 <= w < r && writes_intermediate(#[trigger] cs[w])
}

/// Every dispatch comes after the uniform upload it reads.
pub open spec fn upload_precedes_dispatch(cs: Seq<FrameCommand>) -> bool {
    forall|d: int|
        0 <= d < cs.len() && (#[trigger] cs[d]) is Dispatch ==> exists|u: int|
            0 <= u < d && (#[trigger] cs[u]) is WriteUniform
}

/// The commands of one frame of the compute-then-render pipeline.
pub open spec fn spec_frame(grid: DispatchGrid) -> Seq<FrameCommand> {
    seq![
        FrameCommand::WriteUniform,
        FrameCommand::SetComputePipeline,
        FrameCommand::SetComputeBindGroup(0),
        FrameCommand::Dispatch(grid),
        FrameCommand::BeginRenderPass,
        FrameCommand::SetRenderPipeline,
        FrameCommand::SetRenderBindGroup(0),
        FrameCommand::SetVertexBuffer(0),
        FrameCommand::Draw { vertex_count: 4, instance_count: 1 },
        FrameCommand::Present,
    ]
}

/// One frame as submitted: the uniform bytes to upload, and the commands.
#[derive(Debug)]
pub struct EncodedFrame {
    pub uniform_bytes: Vec<u8>,
    pub commands: Vec<FrameCommand>,
}

/// Exactly one command of `cs` writes the intermediate texture.
pub open spec fn single_writer(cs: Seq<FrameCommand>) -> bool {
    exists|w: int|
        0 <= w < cs.len() && writes_intermediate(#[trigger] cs[w]) && forall|i: int|
            0 <= i < cs.len() && writes_intermediate(#[trigger] cs[i]) ==> i == w
}

/// Exactly one command of `cs` uploads the uniform block.
pub open spec fn single_upload(cs: Seq<FrameCommand>) -> bool {
    exists|u: int|
        0 <= u < cs.len() && (#[trigger] cs[u]) is WriteUniform && forall|i: int|
            0 <= i < cs.len() && (#[trigger] cs[i]) is WriteUniform ==> i == u
}

/// The texture is written only in the compute pass and read only in the
/// render pass, so no pass both writes and reads it.
pub open spec fn passes_separate(cs: Seq<FrameCommand>) -> bool {
    forall|i: int|
        0 <= i < cs.len() ==> (writes_intermediate(#[trigger] cs[i]) ==> spec_stage_of(cs[i])
            == FrameStage::ComputeDispatch) && (reads_intermediate(cs[i]) ==> spec_stage_of(cs[i])
            == FrameStage::RenderDispatch)
}

/// `g` is the smallest grid of `t` tiles that covers a `w` x `h` texture,
/// and every texel falls in a dispatched workgroup.
pub open spec fn covers(w: u32, h: u32, t: WorkgroupTile, g: DispatchGrid) -> bool {
    &&& g.z == 1
    &&& g.x as int * t.width as int >= w as int
    &&& g.y as int * t.height as int >= h as int
    &&& (g.x as int - 1) * (t.width as int) < w as int
    &&& (g.y as int - 1) * (t.height as int) < h as int
    &&& forall|x: nat, y: nat|
        x < w && y < h ==> #[trigger] texel_group(x, y, t, g)
}

/// The texel (`x`, `y`) lies in a workgroup of `g`.
pub open spec fn texel_group(x: nat, y: nat, t: WorkgroupTile, g: DispatchGrid) -> bool {
    x / (t.width as nat) < g.x && y / (t.height as nat) < g.y
}

/// The dispatched grid covers the model's intermediate texture.
pub open spec fn grid_covers(shader_model: &ShaderModel) -> bool {
    covers(
        shader_model.resources.intermediate.width,
        shader_model.resources.intermediate.height,
        shader_model.tile,
        shader_model.grid,
    )
}

/// The grid sized for a texture is the smallest that covers it.
pub proof fn lemma_grid_covers(w: u32, h: u32, t: WorkgroupTile)
    requires
        t.valid(),
    ensures
        covers(w, h, t, spec_grid(w as nat, h as nat, t)),
{
    let g = spec_grid(w as nat, h as nat, t);
    lemma_grid_smallest_cover(w as nat, h as nat, t);
    assert forall|x: nat, y: nat| x < w && y < h implies #[trigger] texel_group(x, y, t, g) by {
        lemma_grid_covers_every_pixel(w as nat, h as nat, t, x, y);
    }
}

/// The frame that runs `shader_model`'s compute stage with `uniforms` and
/// then draws its output: the upload of the uniform bytes, one dispatch over
/// the intermediate texture, the render pass that samples it, and the
/// presentation.
pub fn wgpu_render_pass(shader_model: &ShaderModel, uniforms: &FrameUniforms) -> (r: EncodedFrame)
    requires
        shader_model.wf(),
    ensures
        r.uniform_bytes@ == block_bytes(frame_kinds(), uniforms.values()),
        r.commands@ == spec_frame(shader_model.grid),
        grid_covers(shader_model),
        write_precedes_read(r.commands@),
        upload_precedes_dispatch(r.commands@),
        single_writer(r.commands@),
        single_upload(r.commands@),
        passes_separate(r.commands@),
        stages_in_order(r.commands@),
{
    let uniform_bytes = uniforms.to_bytes(&shader_model.resources.uniform);
    let commands = vec![
        FrameCommand::WriteUniform,
        FrameCommand::SetComputePipeline,
        FrameCommand::SetComputeBindGroup(0),
        FrameCommand::Dispatch(shader_model.grid),
        FrameCommand::BeginRenderPass,
        FrameCommand::SetRenderPipeline,
        FrameCommand::SetRenderBindGroup(0),
        FrameCommand::SetVertexBuffer(0),
        FrameCommand::Draw { vertex_count: 4, instance_count: 1 },
        FrameCommand::Present,
    ];
    assert(commands@ =~= spec_frame(shader_model.grid));
    proof {
        lemma_frame_ordered(shader_model.grid);
        lemma_grid_covers(
            shader_model.resources.intermediate.width,
            shader_model.resources.intermediate.height,
            shader_model.tile,
        );
    }
    EncodedFrame { uniform_bytes, commands }
}

/// In every frame the compute dispatch that writes the intermediate texture
/// comes before each render command that reads it, the uniform upload comes
/// before the dispatch, each happens once, the texture is written and read in
/// different passes, and the commands go through the frame's states in order.
pub proof fn lemma_frame_ordered(grid: DispatchGrid)
    ensures
        write_precedes_read(spec_frame(grid)),
        upload_precedes_dispatch(spec_frame(grid)),
        stages_in_order(spec_frame(grid)),
        single_writer(spec_frame(grid)),
        single_upload(spec_frame(grid)),
        passes_separate(spec_frame(grid)),
{
    let cs = spec_frame(grid);
    assert forall|i: int| 0 <= i < cs.len() && writes_intermediate(#[trigger] cs[i]) implies i == 3 by {
        assert(0 <= i < 10);
    }
    assert(writes_intermediate(cs[3]));
    assert forall|i: int| 0 <= i < cs.len() && (#[trigger] cs[i]) is WriteUniform implies i == 0 by {
        assert(0 <= i < 10);
    }
    assert(cs[0] is WriteUniform);
    assert forall|i: int| 0 <= i < cs.len() implies (writes_intermediate(#[trigger] cs[i]) ==> spec_stage_of(cs[i])
        == FrameStage::ComputeDispatch) && (reads_intermediate(cs[i]) ==> spec_stage_of(cs[i])
        == FrameStage::RenderDispatch) by {
        assert(0 <= i < 10);
    }
    assert forall|i: int, j: int| 0 <= i < j < cs.len() implies spec_stage_of(#[trigger] cs[i]).rank()
        <= spec_stage_of(#[trigger] cs[j]).rank() by {
        assert(0 <= i < 10 && 0 <= j < 10);
    }
    assert forall|r: int| 0 <= r < cs.len() && reads_intermediate(#[trigger] cs[r]) implies exists|w: int|
        0 <= w < r && writes_intermediate(#[trigger] cs[w]) by {
        assert(writes_intermediate(cs[3]));
    }
    assert forall|d: int| 0 <= d < cs.len() && (#[trigger] cs[d]) is Dispatch implies exists|u: int|
        0 <= u < d && (#[trigger] cs[u]) is WriteUniform by {
        assert(cs[0] is WriteUniform);
    }
}

/// The uniform bytes of a frame read back as the parameters it was encoded
/// with, so a frame shows the parameters current when it was encoded.
pub proof fn lemma_frame_uniform_reflects(u: FrameUniforms)
    ensures
        field_values(frame_kinds(), bytes_to_words(block_bytes(frame_kinds(), u.values()))) == u.values(),
{
    assert(values_fit(frame_kinds(), u.values()));
    lemma_block_round_trip(frame_kinds(), u.values());
}

/// Frames encoded with different parameters upload different bytes.
pub proof fn lemma_distinct_parameters_distinct_bytes(a: FrameUniforms, b: FrameUniforms)
    requires
        a != b,
    ensures
        block_bytes(frame_kinds(), a.values()) != block_bytes(frame_kinds(), b.values()),
{
    lemma_frame_uniform_reflects(a);
    lemma_frame_uniform_reflects(b);
    if a.values() == b.values() {
        assert(a.values()[0][0] == b.values()[0][0]);
        assert(a.values()[1][0] == b.values()[1][0]);
        assert(a.values()[2][0] == b.values()[2][0]);
    }
}

} // verus!
