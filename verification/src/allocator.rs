//! The frame allocator: per-frame GPU-visible buffers drawn from a growable
//! ring-style arena, and fresh command-recording contexts.
//!
//! The arena never frees individual buffers. The frame driver waits for
//! presentation to complete before the next frame begins, so by the time the
//! cursor wraps (`reset_frame`) no prior allocation of the arena is still in
//! flight, and the region can be reused without per-buffer fences.

use vstd::prelude::*;
use crate::geometry::ColoredVertex;
use crate::recorder::{CommandBufferUsage, CommandContext};

verus! {

/// Size in bytes of one vertex element in the arena.
pub const VERTEX_ELEMENT_BYTES: usize = 24;

/// Size in bytes of one index element in the arena.
pub const INDEX_ELEMENT_BYTES: usize = 4;

/// A per-frame vertex buffer: a region of the arena at `offset` holding
/// exactly the staged vertices.
#[derive(Clone, Debug)]
pub struct VertexBuffer {
    pub offset: usize,
    pub data: Vec<ColoredVertex>,
}

/// A per-frame index buffer: a region of the arena at `offset` holding
/// exactly the staged indices.
#[derive(Clone, Debug)]
pub struct IndexBuffer {
    pub offset: usize,
    pub data: Vec<u32>,
}

/// The ring-style arena the per-frame buffers are drawn from. `cursor` is the
/// next free byte of the current frame window; `capacity` grows on demand and
/// never shrinks.
#[derive(Clone, Copy, Debug, PartialEq, Eq, Structural)]
pub struct FrameAllocator {
    pub capacity: usize,
    pub cursor: usize,
}

impl FrameAllocator {
    /// Every allocated byte lies within the arena.
    pub open spec fn wf(&self) -> bool {
        self.cursor <= self.capacity
    }

    /// A fresh, empty arena.
    pub fn new() -> (r: FrameAllocator)
        ensures
            r.wf(),
            r.cursor == 0,
            r.capacity == 0,
    {
        FrameAllocator { capacity: 0, cursor: 0 }
    }

    /// Wraps the arena for the next frame. Sound only once no allocation of
    /// the previous frame is still in flight, which the frame driver
    /// guarantees by waiting on presentation before beginning a frame.
    pub fn reset_frame(&mut self)
        requires
            old(self).wf(),
        ensures
            final(self).wf(),
            final(self).cursor == 0,
            final(self).capacity == old(self).capacity,
    {
        self.cursor = 0;
    }

    /// Allocates a region of `bytes` bytes at the cursor, growing the arena
    /// when the current frame window is exhausted.
    fn allocate_region(&mut self, bytes: usize) -> (offset: usize)
        requires
            old(self).wf(),
            old(self).cursor + bytes <= usize::MAX,
        ensures
            final(self).wf(),
            offset == old(self).cursor,
            final(self).cursor == old(self).cursor + bytes,
            final(self).capacity >= old(self).capacity,
    {
        let offset = self.cursor;
        if bytes > self.capacity - self.cursor {
            self.capacity = self.cursor + bytes;
        }
        self.cursor = offset + bytes;
        offset
    }

    /// Allocates a vertex buffer of exactly `vertices.len()` elements and
    /// copies the vertices into it, in order. Distinct allocations of one
    /// frame occupy disjoint regions: each begins at the cursor the previous
    /// one advanced.
    pub fn alloc_vertex_buffer(&mut self, vertices: &Vec<ColoredVertex>) -> (r: VertexBuffer)
        requires
            old(self).wf(),
            old(self).cursor + vertices@.len() * VERTEX_ELEMENT_BYTES <= usize::MAX,
        ensures
            final(self).wf(),
            r.data@ =~= vertices@,
            r.offset == old(self).cursor,
            final(self).cursor == old(self).cursor + vertices@.len() * VERTEX_ELEMENT_BYTES,
            final(self).capacity >= old(self).capacity,
    {
        let count = vertices.len();
        let offset = self.allocate_region(count * VERTEX_ELEMENT_BYTES);
        let mut data: Vec<ColoredVertex> = Vec::new();
        let mut i: usize = 0;
        while i < count
            invariant
                count == vertices@.len(),
                i <= count,
                data@ =~= vertices@.take(i as int),
            decreases count - i,
        {
            data.push(vertices[i]);
            assert(vertices@.take(i + 1 as int) =~= vertices@.take(i as int).push(
                vertices@[i as int],
            ));
            i += 1;
        }
        assert(data@ =~= vertices@);
        VertexBuffer { offset, data }
    }

    /// Allocates an index buffer of exactly `indices.len()` elements and
    /// copies the indices into it, in order.
    pub fn alloc_index_buffer(&mut self, indices: &Vec<u32>) -> (r: IndexBuffer)
        requires
            old(self).wf(),
            old(self).cursor + indices@.len() * INDEX_ELEMENT_BYTES <= usize::MAX,
        ensures
            final(self).wf(),
            r.data@ =~= indices@,
            r.offset == old(self).cursor,
            final(self).cursor == old(self).cursor + indices@.len() * INDEX_ELEMENT_BYTES,
            final(self).capacity >= old(self).capacity,
    {
        let count = indices.len();
        let offset = self.allocate_region(count * INDEX_ELEMENT_BYTES);
        let mut data: Vec<u32> = Vec::new();
        let mut i: usize = 0;
        while i < count
            invariant
                count == indices@.len(),
                i <= count,
                data@ =~= indices@.take(i as int),
            decreases count - i,
        {
            data.push(indices[i]);
            assert(indices@.take(i + 1 as int) =~= indices@.take(i as int).push(
                indices@[i as int],
            ));
            i += 1;
        }
        assert(data@ =~= indices@);
        IndexBuffer { offset, data }
    }

    /// Produces a fresh, empty command-recording context scoped to one queue
    /// family and one usage intent.
    pub fn alloc_primary_builder(&self, queue_family_index: u32, usage: CommandBufferUsage) -> (r:
        CommandContext)
        ensures
            r.queue_family_index == queue_family_index,
            r.usage == usage,
            r.commands@.len() == 0,
    {
        CommandContext { queue_family_index, usage, commands: Vec::new() }
    }
}

} // verus!
