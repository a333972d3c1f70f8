//! The frame allocator and the command recorder: exact sizes, exact copies,
//! disjoint regions, and the fixed recorded command sequence.

use frameloop::allocator::{
    FrameAllocator, INDEX_ELEMENT_BYTES, VERTEX_ELEMENT_BYTES,
};
use frameloop::extent::Extent;
use frameloop::geometry::{
    demo_quad, vertex_layout, ColoredVertex, F32_ONE, F32_ZERO, FORMAT_R32G32B32_SFLOAT,
    VERTEX_STRIDE,
};
use frameloop::recorder::{
    background_clear, record_command_buffer, ClearColor, Command, CommandBufferUsage,
    ImageViewInfo,
};

#[test]
fn vertex_buffer_is_exact_copy() {
    let mut arena = FrameAllocator::new();
    let quad = demo_quad();
    let vb = arena.alloc_vertex_buffer(&quad.vertices);
    assert_eq!(vb.offset, 0);
    assert_eq!(vb.data.len(), 4);
    assert_eq!(vb.data, quad.vertices);
    assert_eq!(arena.cursor, 4 * VERTEX_ELEMENT_BYTES);
}

#[test]
fn index_buffer_is_exact_copy() {
    let mut arena = FrameAllocator::new();
    let indices = vec![0u32, 1, 2, 2, 1, 3];
    let ib = arena.alloc_index_buffer(&indices);
    assert_eq!(ib.offset, 0);
    assert_eq!(ib.data, indices);
    assert_eq!(arena.cursor, 6 * INDEX_ELEMENT_BYTES);
}

#[test]
fn allocations_within_a_frame_are_disjoint() {
    let mut arena = FrameAllocator::new();
    let quad = demo_quad();
    let vb = arena.alloc_vertex_buffer(&quad.vertices);
    let ib = arena.alloc_index_buffer(&quad.indices);
    let vb_end = vb.offset + vb.data.len() * VERTEX_ELEMENT_BYTES;
    assert!(vb_end <= ib.offset);
    assert!(arena.capacity >= arena.cursor);
}

#[test]
fn reset_wraps_the_arena_without_shrinking() {
    let mut arena = FrameAllocator::new();
    let quad = demo_quad();
    let _ = arena.alloc_vertex_buffer(&quad.vertices);
    let grown = arena.capacity;
    arena.reset_frame();
    assert_eq!(arena.cursor, 0);
    assert_eq!(arena.capacity, grown);
    let vb = arena.alloc_vertex_buffer(&quad.vertices);
    assert_eq!(vb.offset, 0);
}

#[test]
fn command_context_is_fresh() {
    let arena = FrameAllocator::new();
    let ctx = arena.alloc_primary_builder(7, CommandBufferUsage::OneTimeSubmit);
    assert_eq!(ctx.queue_family_index, 7);
    assert_eq!(ctx.usage, CommandBufferUsage::OneTimeSubmit);
    assert!(ctx.commands.is_empty());
}

#[test]
fn recorded_sequence_is_the_fixed_pass() {
    let arena = FrameAllocator::new();
    let mut ctx = arena.alloc_primary_builder(0, CommandBufferUsage::OneTimeSubmit);
    let target = ImageViewInfo { extent: Extent::new(800, 600), layers: 1 };
    record_command_buffer(&mut ctx, 0, 4, 96, 6, 6, &target);
    let cmds = &ctx.commands;
    assert_eq!(cmds.len(), 7);
    assert_eq!(
        cmds[0],
        Command::BeginRenderPass {
            render_area: Extent::new(800, 600),
            layers: 1,
            clear: background_clear(),
        }
    );
    assert_eq!(cmds[1], Command::BindGraphicsPipeline);
    assert_eq!(cmds[2], Command::SetViewport { first: 0, extent: Extent::new(800, 600) });
    assert_eq!(cmds[3], Command::BindVertexBuffer { binding: 0, offset: 0, element_count: 4 });
    assert_eq!(cmds[4], Command::BindIndexBuffer { offset: 96, element_count: 6 });
    assert_eq!(
        cmds[5],
        Command::DrawIndexed {
            index_count: 6,
            instance_count: 1,
            first_index: 0,
            vertex_offset: 0,
            first_instance: 0,
        }
    );
    assert_eq!(cmds[6], Command::EndRenderPass);
}

#[test]
fn clear_color_is_opaque_black() {
    assert_eq!(
        background_clear(),
        ClearColor { red: F32_ZERO, green: F32_ZERO, blue: F32_ZERO, alpha: F32_ONE }
    );
    assert_eq!(f32::from_bits(F32_ZERO), 0.0);
    assert_eq!(f32::from_bits(F32_ONE), 1.0);
}

#[test]
fn vertex_layout_matches_the_vertex() {
    let layout = vertex_layout();
    assert_eq!(layout.binding, 0);
    assert_eq!(layout.stride, VERTEX_STRIDE);
    assert_eq!(layout.stride as usize, std::mem::size_of::<[f32; 6]>());
    assert_eq!(layout.attributes.len(), 2);
    assert_eq!(layout.attributes[0].location, 0);
    assert_eq!(layout.attributes[0].offset, 0);
    assert_eq!(layout.attributes[0].format_id, FORMAT_R32G32B32_SFLOAT);
    assert_eq!(layout.attributes[1].location, 1);
    assert_eq!(layout.attributes[1].offset, 12);
    assert_eq!(layout.attributes[1].format_id, FORMAT_R32G32B32_SFLOAT);
}

#[test]
fn demo_quad_has_expected_geometry() {
    let quad = demo_quad();
    assert_eq!(quad.vertices.len(), 4);
    assert_eq!(quad.indices, vec![0, 1, 2, 2, 1, 3]);
    let first = &quad.vertices[0];
    assert_eq!(first.position.map(f32::from_bits), [-0.5, -0.5, 0.0]);
    assert_eq!(first.color.map(f32::from_bits), [0.2, 0.6, 0.9]);
    let last = &quad.vertices[3];
    assert_eq!(last.position.map(f32::from_bits), [0.5, 0.5, 0.0]);
    assert_eq!(last.color.map(f32::from_bits), [1.0, 1.0, 1.0]);
}

#[test]
fn vertex_constructor_keeps_fields() {
    let v = ColoredVertex::new([1, 2, 3], [4, 5, 6]);
    assert_eq!(v.position, [1, 2, 3]);
    assert_eq!(v.color, [4, 5, 6]);
}
