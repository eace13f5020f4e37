use vstd::prelude::*;

use crate::renderer::draw_call::DrawCall;
use crate::renderer::frame_target::Viewport;

verus! {

/// One command of a frame's command buffer. Pipelines, vertex buffers and
/// framebuffers are named by the handles under which the host keeps them.
#[derive(Clone, Copy, Debug, PartialEq, Eq, Structural)]
pub enum Command {
    /// Begins the render pass on `framebuffer`, clearing it to the clear colour.
    BeginRenderPass { framebuffer: u64 },
    /// Sets the dynamic viewport.
    SetViewport { viewport: Viewport },
    /// Writes the frame's uniform data and binds it, through the layout of
    /// the pipeline `layout_of`.
    BindUniforms { layout_of: u64 },
    /// Binds a graphics pipeline.
    BindPipeline { pipeline: u64 },
    /// Binds a vertex buffer at binding 0.
    BindVertexBuffer { buffer: u64 },
    /// A non-indexed draw.
    Draw { vertex_count: u32, instance_count: u32 },
    /// Ends the render pass.
    EndRenderPass,
}

/// The three commands that draw `d`: bind its pipeline, bind its vertex
/// buffer, draw all its vertices once.
pub open spec fn draw_commands(d: DrawCall) -> Seq<Command> {
    seq![
        Command::BindPipeline { pipeline: d.material.pipeline },
        Command::BindVertexBuffer { buffer: d.model.buffer },
        Command::Draw { vertex_count: d.model.vertex_count, instance_count: 1 },
    ]
}

/// The commands that draw `draws`, one after the other in the order given.
pub open spec fn draws_commands(draws: Seq<DrawCall>) -> Seq<Command>
    decreases draws.len(),
{
    if draws.len() == 0 {
        Seq::empty()
    } else {
        draws_commands(draws.drop_last()) + draw_commands(draws.last())
    }
}

/// The commands before the draws: begin the render pass, set the viewport,
/// bind the uniform data through the first draw call's pipeline layout.
pub open spec fn prologue(draws: Seq<DrawCall>, framebuffer: u64, viewport: Viewport) -> Seq<
    Command,
> {
    seq![
        Command::BeginRenderPass { framebuffer },
        Command::SetViewport { viewport },
        Command::BindUniforms { layout_of: draws[0].material.pipeline },
    ]
}

/// The whole command buffer of a frame that draws `draws` (at least one)
/// into `framebuffer`.
pub open spec fn frame_commands(draws: Seq<DrawCall>, framebuffer: u64, viewport: Viewport) -> Seq<
    Command,
> {
    prologue(draws, framebuffer, viewport) + draws_commands(draws) + seq![Command::EndRenderPass]
}

/// Each draw call gives three commands.
pub proof fn lemma_draws_commands_len(draws: Seq<DrawCall>)
    ensures
        draws_commands(draws).len() == 3 * draws.len(),
    decreases draws.len(),
{
    if draws.len() > 0 {
        lemma_draws_commands_len(draws.drop_last());
    }
}

/// Where each draw call's commands stand: those of the `k`-th draw call are
/// at `3 * k`, `3 * k + 1` and `3 * k + 2`.
pub proof fn lemma_draws_commands_index(draws: Seq<DrawCall>, k: int)
    requires
        0 <= k < draws.len(),
    ensures
        draws_commands(draws)[3 * k] == draw_commands(draws[k])[0],
        draws_commands(draws)[3 * k + 1] == draw_commands(draws[k])[1],
        draws_commands(draws)[3 * k + 2] == draw_commands(draws[k])[2],
    decreases draws.len(),
{
    lemma_draws_commands_len(draws.drop_last());
    if k < draws.len() - 1 {
        lemma_draws_commands_index(draws.drop_last(), k);
    }
}

/// Draw calls are recorded in exactly the order given: in a frame's command
/// buffer, the commands of the `k`-th draw call stand at `3 * k + 3` to
/// `3 * k + 5`, so those of an earlier draw call come before those of a
/// later one, and the buffer holds nothing else but the three commands
/// before the draws and the end of the render pass after them.
pub proof fn lemma_draw_order_kept(draws: Seq<DrawCall>, framebuffer: u64, viewport: Viewport)
    requires
        draws.len() > 0,
    ensures
        frame_commands(draws, framebuffer, viewport).len() == 3 * draws.len() + 4,
        frame_commands(draws, framebuffer, viewport)[0] == (Command::BeginRenderPass {
            framebuffer,
        }),
        frame_commands(draws, framebuffer, viewport)[1] == (Command::SetViewport { viewport }),
        frame_commands(draws, framebuffer, viewport)[3 * draws.len() as int + 3]
            == Command::EndRenderPass,
        forall|k: int|
            0 <= k < draws.len() ==> {
                &&& frame_commands(draws, framebuffer, viewport)[3 * k + 3] == (
                Command::BindPipeline { pipeline: (#[trigger] draws[k]).material.pipeline })
                &&& frame_commands(draws, framebuffer, viewport)[3 * k + 4] == (
                Command::BindVertexBuffer { buffer: draws[k].model.buffer })
                &&& frame_commands(draws, framebuffer, viewport)[3 * k + 5] == (Command::Draw {
                    vertex_count: draws[k].model.vertex_count,
                    instance_count: 1,
                })
            },
{
    lemma_draws_commands_len(draws);
    assert forall|k: int| 0 <= k < draws.len() implies {
        &&& frame_commands(draws, framebuffer, viewport)[3 * k + 3] == (Command::BindPipeline {
            pipeline: (#[trigger] draws[k]).material.pipeline,
        })
        &&& frame_commands(draws, framebuffer, viewport)[3 * k + 4] == (Command::BindVertexBuffer {
            buffer: draws[k].model.buffer,
        })
        &&& frame_commands(draws, framebuffer, viewport)[3 * k + 5] == (Command::Draw {
            vertex_count: draws[k].model.vertex_count,
            instance_count: 1,
        })
    } by {
        lemma_draws_commands_index(draws, k);
    }
}

/// Records the command buffer of a frame that draws `draws` into
/// `framebuffer` through `viewport`.
pub fn record_commands(draws: &Vec<DrawCall>, framebuffer: u64, viewport: Viewport) -> (r: Vec<
    Command,
>)
    requires
        draws@.len() > 0,
    ensures
        r@ == frame_commands(draws@, framebuffer, viewport),
{
    let mut r: Vec<Command> = Vec::new();
    r.push(Command::BeginRenderPass { framebuffer });
    r.push(Command::SetViewport { viewport });
    r.push(Command::BindUniforms { layout_of: draws[0].material.pipeline });
    let mut i: usize = 0;
    while i < draws.len()
        invariant
            0 <= i <= draws@.len(),
            draws@.len() > 0,
            r@ == prologue(draws@, framebuffer, viewport) + draws_commands(draws@.take(i as int)),
        decreases draws@.len() - i,
    {
        let d = draws[i];
        r.push(Command::BindPipeline { pipeline: d.material.pipeline() });
        r.push(Command::BindVertexBuffer { buffer: d.model.buffer });
        r.push(Command::Draw { vertex_count: d.model.vertex_count, instance_count: 1 });
        proof {
            assert(draws@.take(i + 1).drop_last() =~= draws@.take(i as int));
        }
        i = i + 1;
        assert(r@ =~= prologue(draws@, framebuffer, viewport) + draws_commands(draws@.take(i as int)));
    }
    assert(draws@.take(i as int) =~= draws@);
    r.push(Command::EndRenderPass);
    assert(r@ =~= frame_commands(draws@, framebuffer, viewport));
    r
}

} // verus!
