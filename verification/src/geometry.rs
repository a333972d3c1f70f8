//! CPU-side geometry: the fixed-layout vertex, the mesh drawn each frame, and
//! the vertex-input layout the pipeline binds it with.
//!
//! Color and position components are carried as the bit patterns of 32-bit
//! IEEE floats; the application reinterprets them when staging GPU memory.

use vstd::prelude::*;

verus! {

/// Bit pattern of the 32-bit float 0.0.
pub const F32_ZERO: u32 = 0x0000_0000;

/// Bit pattern of the 32-bit float 0.5.
pub const F32_HALF: u32 = 0x3F00_0000;

/// Bit pattern of the 32-bit float -0.5.
pub const F32_NEG_HALF: u32 = 0xBF00_0000;

/// Bit pattern of the 32-bit float 1.0.
pub const F32_ONE: u32 = 0x3F80_0000;

/// Bit pattern of the 32-bit float 0.2.
pub const F32_ZERO_POINT_TWO: u32 = 0x3E4C_CCCD;

/// Bit pattern of the 32-bit float 0.6.
pub const F32_ZERO_POINT_SIX: u32 = 0x3F19_999A;

/// Bit pattern of the 32-bit float 0.9.
pub const F32_ZERO_POINT_NINE: u32 = 0x3F66_6666;

/// Bit pattern of the 32-bit float 0.65.
pub const F32_ZERO_POINT_SIX_FIVE: u32 = 0x3F26_6666;

/// Vulkan format code of a three-component 32-bit float attribute.
pub const FORMAT_R32G32B32_SFLOAT: u32 = 106;

/// Size in bytes of one vertex: two three-component 32-bit float attributes.
pub const VERTEX_STRIDE: u32 = 24;

/// One vertex of the mesh: a position and a color, each three 32-bit float
/// components carried as bit patterns.
#[derive(Clone, Copy, Debug, PartialEq, Eq)]
pub struct ColoredVertex {
    pub position: [u32; 3],
    pub color: [u32; 3],
}

impl ColoredVertex {
    pub fn new(position: [u32; 3], color: [u32; 3]) -> (r: ColoredVertex)
        ensures
            r.position == position,
            r.color == color,
    {
        ColoredVertex { position, color }
    }
}

/// One vertex-input attribute: shader location, byte offset within the
/// vertex, and the Vulkan format code of the component data.
#[derive(Clone, Copy, Debug, PartialEq, Eq, Structural)]
pub struct VertexAttribute {
    pub location: u32,
    pub offset: u32,
    pub format_id: u32,
}

/// The vertex-input layout: one binding holding interleaved vertices of
/// `VERTEX_STRIDE` bytes, with the attribute list in shader-location order.
#[derive(Clone, Debug)]
pub struct VertexLayout {
    pub binding: u32,
    pub stride: u32,
    pub attributes: Vec<VertexAttribute>,
}

/// The layout `ColoredVertex` is bound with: binding 0, 24-byte stride,
/// position at offset 0 and color at offset 12, both three-float attributes.
pub fn vertex_layout() -> (r: VertexLayout)
    ensures
        r.binding == 0,
        r.stride == VERTEX_STRIDE,
        r.attributes@ =~= seq![
            VertexAttribute { location: 0, offset: 0, format_id: FORMAT_R32G32B32_SFLOAT },
            VertexAttribute { location: 1, offset: 12, format_id: FORMAT_R32G32B32_SFLOAT },
        ],
{
    let mut attributes: Vec<VertexAttribute> = Vec::new();
    attributes.push(VertexAttribute { location: 0, offset: 0, format_id: FORMAT_R32G32B32_SFLOAT });
    attributes.push(
        VertexAttribute { location: 1, offset: 12, format_id: FORMAT_R32G32B32_SFLOAT },
    );
    VertexLayout { binding: 0, stride: VERTEX_STRIDE, attributes }
}

/// The geometry drawn in one frame: a vertex array and a u32 index array.
#[derive(Clone, Debug)]
pub struct Mesh {
    pub vertices: Vec<ColoredVertex>,
    pub indices: Vec<u32>,
}

impl Mesh {
    /// Every index points at a vertex, and the index count is representable
    /// as the u32 a draw call takes.
    pub open spec fn wf(&self) -> bool {
        &&& forall|i: int|
            0 <= i < self.indices@.len() ==> (#[trigger] self.indices@[i]) < self.vertices@.len()
        &&& self.indices@.len() <= u32::MAX
    }
}

/// The demo scene: a two-triangle quad of four colored vertices and six
/// indices, the mesh every frame of the sample application draws.
pub fn demo_quad() -> (r: Mesh)
    ensures
        r.wf(),
        r.vertices@.len() == 4,
        r.indices@ =~= seq![0u32, 1u32, 2u32, 2u32, 1u32, 3u32],
        r.vertices@[0] == (ColoredVertex {
            position: [F32_NEG_HALF, F32_NEG_HALF, F32_ZERO],
            color: [F32_ZERO_POINT_TWO, F32_ZERO_POINT_SIX, F32_ZERO_POINT_NINE],
        }),
        r.vertices@[1] == (ColoredVertex {
            position: [F32_NEG_HALF, F32_HALF, F32_ZERO],
            color: [F32_ZERO_POINT_NINE, F32_HALF, F32_ZERO_POINT_SIX_FIVE],
        }),
        r.vertices@[2] == (ColoredVertex {
            position: [F32_HALF, F32_NEG_HALF, F32_ZERO],
            color: [F32_ZERO_POINT_NINE, F32_HALF, F32_ZERO_POINT_SIX_FIVE],
        }),
        r.vertices@[3] == (ColoredVertex {
            position: [F32_HALF, F32_HALF, F32_ZERO],
            color: [F32_ONE, F32_ONE, F32_ONE],
        }),
{
    let mut vertices: Vec<ColoredVertex> = Vec::new();
    vertices.push(
        ColoredVertex {
            position: [F32_NEG_HALF, F32_NEG_HALF, F32_ZERO],
            color: [F32_ZERO_POINT_TWO, F32_ZERO_POINT_SIX, F32_ZERO_POINT_NINE],
        },
    );
    vertices.push(
        ColoredVertex {
            position: [F32_NEG_HALF, F32_HALF, F32_ZERO],
            color: [F32_ZERO_POINT_NINE, F32_HALF, F32_ZERO_POINT_SIX_FIVE],
        },
    );
    vertices.push(
        ColoredVertex {
            position: [F32_HALF, F32_NEG_HALF, F32_ZERO],
            color: [F32_ZERO_POINT_NINE, F32_HALF, F32_ZERO_POINT_SIX_FIVE],
        },
    );
    vertices.push(
        ColoredVertex { position: [F32_HALF, F32_HALF, F32_ZERO], color: [F32_ONE, F32_ONE, F32_ONE] },
    );
    let mut indices: Vec<u32> = Vec::new();
    indices.push(0);
    indices.push(1);
    indices.push(2);
    indices.push(2);
    indices.push(1);
    indices.push(3);
    Mesh { vertices, indices }
}

} // verus!
