//! Configuration of the render pass and the draw pipeline, enumerated field
//! by field. The pipeline builder itself is an external collaborator; these
//! configurations are what the core hands it, and they pin the one decision
//! the frame pipeline depends on: the viewport stays dynamic, so the same
//! pipeline survives every resize without a rebuild.

use vstd::prelude::*;
use crate::geometry::{vertex_layout, VertexLayout, VERTEX_STRIDE};

verus! {

/// Vulkan image-layout code of a presentation-ready image.
pub const IMAGE_LAYOUT_PRESENT_SRC: u32 = 1000001002;

/// Vulkan image-layout code of an image being rendered to.
pub const IMAGE_LAYOUT_COLOR_ATTACHMENT_OPTIMAL: u32 = 2;

/// What happens to an attachment's contents when its render pass begins.
#[derive(Clone, Copy, Debug, PartialEq, Eq, Structural)]
pub enum AttachmentLoadOp {
    Load,
    Clear,
    DontCare,
}

/// What happens to an attachment's contents when its render pass ends.
#[derive(Clone, Copy, Debug, PartialEq, Eq, Structural)]
pub enum AttachmentStoreOp {
    Store,
    DontCare,
}

/// One attachment of the render pass.
#[derive(Clone, Copy, Debug, PartialEq, Eq, Structural)]
pub struct AttachmentConfig {
    pub format_id: u32,
    pub load_op: AttachmentLoadOp,
    pub store_op: AttachmentStoreOp,
    pub initial_layout: u32,
    pub final_layout: u32,
}

/// One subpass: which attachment it renders color into, and in which layout.
#[derive(Clone, Copy, Debug, PartialEq, Eq, Structural)]
pub struct SubpassConfig {
    pub color_attachment: u32,
    pub color_attachment_layout: u32,
}

/// The render-target layout description: the attachments and the subpasses
/// over them.
#[derive(Clone, Debug)]
pub struct RenderPassConfig {
    pub attachments: Vec<AttachmentConfig>,
    pub subpasses: Vec<SubpassConfig>,
}

/// The render pass every frame draws with: one color attachment in the
/// swapchain's format, cleared on load and stored on completion, kept in the
/// presentation-ready layout outside the pass; and one subpass rendering into
/// it in the color-attachment layout.
pub fn render_pass_config(format_id: u32) -> (r: RenderPassConfig)
    ensures
        r.attachments@ =~= seq![
            AttachmentConfig {
                format_id,
                load_op: AttachmentLoadOp::Clear,
                store_op: AttachmentStoreOp::Store,
                initial_layout: IMAGE_LAYOUT_PRESENT_SRC,
                final_layout: IMAGE_LAYOUT_PRESENT_SRC,
            },
        ],
        r.subpasses@ =~= seq![
            SubpassConfig {
                color_attachment: 0,
                color_attachment_layout: IMAGE_LAYOUT_COLOR_ATTACHMENT_OPTIMAL,
            },
        ],
{
    let mut attachments: Vec<AttachmentConfig> = Vec::new();
    attachments.push(
        AttachmentConfig {
            format_id,
            load_op: AttachmentLoadOp::Clear,
            store_op: AttachmentStoreOp::Store,
            initial_layout: IMAGE_LAYOUT_PRESENT_SRC,
            final_layout: IMAGE_LAYOUT_PRESENT_SRC,
        },
    );
    let mut subpasses: Vec<SubpassConfig> = Vec::new();
    subpasses.push(
        SubpassConfig {
            color_attachment: 0,
            color_attachment_layout: IMAGE_LAYOUT_COLOR_ATTACHMENT_OPTIMAL,
        },
    );
    RenderPassConfig { attachments, subpasses }
}

/// How vertices are assembled into primitives.
#[derive(Clone, Copy, Debug, PartialEq, Eq, Structural)]
pub enum PrimitiveTopology {
    PointList,
    LineList,
    TriangleList,
    TriangleStrip,
}

/// How primitives are rasterized.
#[derive(Clone, Copy, Debug, PartialEq, Eq, Structural)]
pub enum PolygonMode {
    Fill,
    Line,
    Point,
}

/// Which winding order counts as front-facing.
#[derive(Clone, Copy, Debug, PartialEq, Eq, Structural)]
pub enum FrontFace {
    CounterClockwise,
    Clockwise,
}

/// Which faces are culled.
#[derive(Clone, Copy, Debug, PartialEq, Eq, Structural)]
pub enum CullMode {
    Disabled,
    Front,
    Back,
}

/// Every field of the compiled draw pipeline the core decides, enumerated
/// explicitly; nothing safety-relevant is left to silent defaulting.
#[derive(Clone, Debug)]
pub struct PipelineConfig {
    /// Vertex and fragment stage.
    pub stage_count: u32,
    pub vertex_layout: VertexLayout,
    pub topology: PrimitiveTopology,
    pub polygon_mode: PolygonMode,
    pub front_face: FrontFace,
    pub cull_mode: CullMode,
    /// The viewport is supplied at recording time, not baked in; this is what
    /// lets the pipeline survive resize without a rebuild.
    pub dynamic_viewport: bool,
    pub color_blend_attachment_count: u32,
}

/// The one pipeline of the application: two stages over the interleaved
/// colored-vertex layout, triangle lists, filled polygons, counter-clockwise
/// front faces with back-face culling, one color-blend attachment, and —
/// decisive for resize handling — a dynamic viewport.
pub fn graphics_pipeline_config() -> (r: PipelineConfig)
    ensures
        r.stage_count == 2,
        r.vertex_layout.binding == 0,
        r.vertex_layout.stride == VERTEX_STRIDE,
        r.vertex_layout.attributes@.len() == 2,
        r.topology is TriangleList,
        r.polygon_mode is Fill,
        r.front_face is CounterClockwise,
        r.cull_mode is Back,
        r.dynamic_viewport,
        r.color_blend_attachment_count == 1,
{
    PipelineConfig {
        stage_count: 2,
        vertex_layout: vertex_layout(),
        topology: PrimitiveTopology::TriangleList,
        polygon_mode: PolygonMode::Fill,
        front_face: FrontFace::CounterClockwise,
        cull_mode: CullMode::Back,
        dynamic_viewport: true,
        color_blend_attachment_count: 1,
    }
}

} // verus!
