//! The command recorder: turns a target image view, the pipeline, and the
//! per-frame geometry buffers into one finished, submittable command sequence.

use vstd::prelude::*;
use crate::extent::Extent;
use crate::geometry::{F32_ONE, F32_ZERO};

verus! {

/// How a recorded command sequence may be submitted.
#[derive(Clone, Copy, Debug, PartialEq, Eq, Structural)]
pub enum CommandBufferUsage {
    /// Submitted once and then discarded; what every frame here records.
    OneTimeSubmit,
    MultipleSubmit,
    SimultaneousUse,
}

/// A color as four 32-bit float components carried as bit patterns.
#[derive(Clone, Copy, Debug, PartialEq, Eq, Structural)]
pub struct ClearColor {
    pub red: u32,
    pub green: u32,
    pub blue: u32,
    pub alpha: u32,
}

/// The fixed background color the color attachment is cleared to: opaque
/// black.
pub fn background_clear() -> (r: ClearColor)
    ensures
        r == (ClearColor { red: F32_ZERO, green: F32_ZERO, blue: F32_ZERO, alpha: F32_ONE }),
{
    ClearColor { red: F32_ZERO, green: F32_ZERO, blue: F32_ZERO, alpha: F32_ONE }
}

/// What the recorder reads of the target swapchain image view: its size and
/// its layer count, from which the transient framebuffer is built.
#[derive(Clone, Copy, Debug, PartialEq, Eq, Structural)]
pub struct ImageViewInfo {
    pub extent: Extent,
    pub layers: u32,
}

/// One GPU command of the recorded sequence.
#[derive(Clone, Copy, Debug, PartialEq, Eq, Structural)]
pub enum Command {
    /// Begins the render pass on a transient framebuffer bound to the target
    /// view, clearing the single color attachment over the full target area.
    BeginRenderPass { render_area: Extent, layers: u32, clear: ClearColor },
    BindGraphicsPipeline,
    /// Supplies the viewport at recording time; the pipeline leaves it
    /// dynamic so that it survives resize without a rebuild.
    SetViewport { first: u32, extent: Extent },
    BindVertexBuffer { binding: u32, offset: usize, element_count: usize },
    BindIndexBuffer { offset: usize, element_count: usize },
    DrawIndexed {
        index_count: u32,
        instance_count: u32,
        first_index: u32,
        vertex_offset: u32,
        first_instance: u32,
    },
    EndRenderPass,
}

/// A recordable command sequence scoped to one queue family and one usage
/// intent, as handed out by the frame allocator.
#[derive(Clone, Debug)]
pub struct CommandContext {
    pub queue_family_index: u32,
    pub usage: CommandBufferUsage,
    pub commands: Vec<Command>,
}

/// The one command sequence a frame records: begin pass over the full target,
/// bind the pipeline, set the viewport to the full target, bind the geometry
/// at binding slot 0, one indexed draw of the whole index range (one
/// instance, zero offsets), end pass.
pub open spec fn spec_draw_commands(
    target: ImageViewInfo,
    vertex_offset: usize,
    vertex_count: usize,
    index_offset: usize,
    index_element_count: usize,
    index_count: u32,
) -> Seq<Command> {
    seq![
        Command::BeginRenderPass {
            render_area: target.extent,
            layers: target.layers,
            clear: ClearColor { red: F32_ZERO, green: F32_ZERO, blue: F32_ZERO, alpha: F32_ONE },
        },
        Command::BindGraphicsPipeline,
        Command::SetViewport { first: 0, extent: target.extent },
        Command::BindVertexBuffer { binding: 0, offset: vertex_offset, element_count: vertex_count },
        Command::BindIndexBuffer { offset: index_offset, element_count: index_element_count },
        Command::DrawIndexed {
            index_count,
            instance_count: 1,
            first_index: 0,
            vertex_offset: 0,
            first_instance: 0,
        },
        Command::EndRenderPass,
    ]
}

/// Records one frame into a fresh command context: the full fixed sequence of
/// `spec_draw_commands`, drawing `index_count` indices.
pub fn record_command_buffer(
    ctx: &mut CommandContext,
    vertex_offset: usize,
    vertex_count: usize,
    index_offset: usize,
    index_element_count: usize,
    index_count: u32,
    target: &ImageViewInfo,
)
    requires
        old(ctx).commands@.len() == 0,
        index_count as int <= index_element_count as int,
    ensures
        final(ctx).commands@ =~= spec_draw_commands(
            *target,
            vertex_offset,
            vertex_count,
            index_offset,
            index_element_count,
            index_count,
        ),
        final(ctx).queue_family_index == old(ctx).queue_family_index,
        final(ctx).usage == old(ctx).usage,
{
    let clear = background_clear();
    ctx.commands.push(
        Command::BeginRenderPass { render_area: target.extent, layers: target.layers, clear },
    );
    ctx.commands.push(Command::BindGraphicsPipeline);
    ctx.commands.push(Command::SetViewport { first: 0, extent: target.extent });
    ctx.commands.push(
        Command::BindVertexBuffer { binding: 0, offset: vertex_offset, element_count: vertex_count },
    );
    ctx.commands.push(
        Command::BindIndexBuffer { offset: index_offset, element_count: index_element_count },
    );
    ctx.commands.push(
        Command::DrawIndexed {
            index_count,
            instance_count: 1,
            first_index: 0,
            vertex_offset: 0,
            first_instance: 0,
        },
    );
    ctx.commands.push(Command::EndRenderPass);
}

} // verus!
