//! The commands recorded into a frame's command buffer: the compute dispatch
//! that advances the particles, the barrier that makes its writes visible to
//! vertex input, and the draw of the particles as points.
use vstd::prelude::*;

verus! {

/// Invocations per compute work group.
pub const WORKGROUP_SIZE: u32 = 256;

/// Pipeline stage: compute shader.
pub const STAGE_COMPUTE_SHADER: u32 = 0x800;

/// Pipeline stage: vertex input.
pub const STAGE_VERTEX_INPUT: u32 = 0x4;

/// Memory access: shader write.
pub const ACCESS_SHADER_WRITE: u32 = 0x40;

/// Memory access: vertex attribute read.
pub const ACCESS_VERTEX_ATTRIBUTE_READ: u32 = 0x4;

/// One command of a frame. The buffer, pipelines, descriptor set and render
/// pass are those created at start-up.
#[derive(Debug, Clone, Copy, PartialEq, Eq, Structural)]
pub enum Command {
    /// Bind the compute pipeline.
    BindComputePipeline,
    /// Bind the particle buffer's descriptor set as set 0 of the compute stage.
    BindDescriptorSet,
    /// Dispatch `groups` work groups along x; each invocation updates the
    /// record of its index, if there is one.
    Dispatch { groups: u32 },
    /// A memory barrier over the whole particle buffer.
    BufferBarrier { src_stage: u32, dst_stage: u32, src_access: u32, dst_access: u32 },
    /// Begin the render pass on framebuffer `framebuffer`, cleared to opaque black.
    BeginRenderPass { framebuffer: u32 },
    /// Bind the graphics pipeline.
    BindGraphicsPipeline,
    /// Bind the particle buffer as vertex buffer 0, at offset 0.
    BindVertexBuffer,
    /// Draw `vertex_count` vertices, one instance, from vertex 0.
    Draw { vertex_count: u32 },
    /// End the render pass.
    EndRenderPass,
}

/// The number of work groups that covers `count` records: `count / 256`
/// rounded up.
pub open spec fn groups_spec(count: u32) -> int {
    (count as int + WORKGROUP_SIZE - 1) / WORKGROUP_SIZE as int
}

/// The work groups to dispatch for `count` records.
pub fn dispatch_group_count(count: u32) -> (r: u32)
    ensures
        r == groups_spec(count),
        r * WORKGROUP_SIZE >= count,
        r * WORKGROUP_SIZE < count + WORKGROUP_SIZE,
{
    let r = count / WORKGROUP_SIZE + if count % WORKGROUP_SIZE == 0 { 0 } else { 1 };
    assert(r * 256 >= count && r * 256 < count + 256 && r == (count as int + 255) / 256) by (nonlinear_arith)
        requires
            r == count / 256 + if count % 256 == 0 { 0int } else { 1int },
    ;
    r
}

/// A barrier that makes compute-shader writes visible to vertex-attribute
/// reads.
pub open spec fn orders_compute_before_vertex(c: Command) -> bool {
    match c {
        Command::BufferBarrier { src_stage, dst_stage, src_access, dst_access } => {
            &&& src_stage & STAGE_COMPUTE_SHADER == STAGE_COMPUTE_SHADER
            &&& dst_stage & STAGE_VERTEX_INPUT == STAGE_VERTEX_INPUT
            &&& src_access & ACCESS_SHADER_WRITE == ACCESS_SHADER_WRITE
            &&& dst_access & ACCESS_VERTEX_ATTRIBUTE_READ == ACCESS_VERTEX_ATTRIBUTE_READ
        },
        _ => false,
    }
}

/// Every draw that follows a dispatch, which writes the particle buffer,
/// is separated from it by a barrier that orders that write before
/// the draw's vertex reads.
pub open spec fn hazard_free(cmds: Seq<Command>) -> bool {
    forall|i: int, j: int|
        0 <= i < j < cmds.len() && (#[trigger] cmds[i]) is Dispatch && (#[trigger] cmds[j]) is Draw ==> exists|k: int|
            i < k < j && orders_compute_before_vertex(#[trigger] cmds[k])
}

/// The barrier recorded between dispatch and draw.
pub open spec fn compute_to_vertex_barrier() -> Command {
    Command::BufferBarrier {
        src_stage: STAGE_COMPUTE_SHADER,
        dst_stage: STAGE_VERTEX_INPUT,
        src_access: ACCESS_SHADER_WRITE,
        dst_access: ACCESS_VERTEX_ATTRIBUTE_READ,
    }
}

/// The commands of one frame over `count` particles, drawn into framebuffer
/// `image`.
pub open spec fn frame_spec(count: u32, image: u32) -> Seq<Command> {
    seq![
        Command::BindComputePipeline,
        Command::BindDescriptorSet,
        Command::Dispatch { groups: groups_spec(count) as u32 },
        compute_to_vertex_barrier(),
        Command::BeginRenderPass { framebuffer: image },
        Command::BindGraphicsPipeline,
        Command::BindVertexBuffer,
        Command::Draw { vertex_count: count },
        Command::EndRenderPass,
    ]
}

/// The commands to record for one frame over `count` particles, drawn into
/// the framebuffer of swapchain image `image`.
pub fn frame_commands(count: u32, image: u32) -> (r: Vec<Command>)
    ensures
        r@ == frame_spec(count, image),
        hazard_free(r@),
{
    let groups = dispatch_group_count(count);
    let r = vec![
        Command::BindComputePipeline,
        Command::BindDescriptorSet,
        Command::Dispatch { groups },
        Command::BufferBarrier {
            src_stage: STAGE_COMPUTE_SHADER,
            dst_stage: STAGE_VERTEX_INPUT,
            src_access: ACCESS_SHADER_WRITE,
            dst_access: ACCESS_VERTEX_ATTRIBUTE_READ,
        },
        Command::BeginRenderPass { framebuffer: image },
        Command::BindGraphicsPipeline,
        Command::BindVertexBuffer,
        Command::Draw { vertex_count: count },
        Command::EndRenderPass,
    ];
    assert(r@ =~= frame_spec(count, image));
    proof {
        lemma_frame_hazard_free(count, image);
    }
    r
}

/// The frame's commands are free of read-after-write hazards on the particle
/// buffer.
pub proof fn lemma_frame_hazard_free(count: u32, image: u32)
    ensures
        hazard_free(frame_spec(count, image)),
{
    let cmds = frame_spec(count, image);
    assert(forall|x: u32| x & x == x) by (bit_vector);
    assert(orders_compute_before_vertex(cmds[3]));
    assert forall|i: int, j: int|
        0 <= i < j < cmds.len() && (#[trigger] cmds[i]) is Dispatch && (#[trigger] cmds[j]) is Draw implies exists|k: int|
            i < k < j && orders_compute_before_vertex(#[trigger] cmds[k]) by {
        assert(i == 2);
        assert(j == 7);
    }
}

/// Without its barrier, the frame's draw reads the particle buffer while the
/// dispatch may still be writing it: a read-after-write hazard.
pub proof fn lemma_barrier_necessary(count: u32, image: u32)
    ensures
        !hazard_free(frame_spec(count, image).remove(3)),
{
    let cmds = frame_spec(count, image).remove(3);
    assert(cmds[2] is Dispatch);
    assert(cmds[6] is Draw);
    assert forall|k: int| 2 < k < 6 implies !orders_compute_before_vertex(#[trigger] cmds[k]) by {
        assert(k == 3 || k == 4 || k == 5);
    }
}

} // verus!
