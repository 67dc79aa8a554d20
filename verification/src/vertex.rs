//! The geometry that the renderer draws: one fixed triangle.
//!
//! Coordinates are single-precision floating-point numbers. They are held
//! here as their IEEE 754 bit patterns, which is also the form in which they
//! reach the vertex buffer.

use vstd::prelude::*;

verus! {

/// Bit pattern of the single-precision number `0.0`.
pub const ZERO: u32 = 0x0000_0000;

/// Bit pattern of the single-precision number `0.25`.
pub const QUARTER: u32 = 0x3E80_0000;

/// Bit pattern of the single-precision number `-0.25`.
pub const MINUS_QUARTER: u32 = 0xBE80_0000;

/// Number of coordinates of a vertex position.
pub const POSITION_COMPONENTS: u64 = 3;

/// Bytes taken by one single-precision coordinate.
pub const COMPONENT_BYTES: u64 = 4;

/// A vertex: its position `(x, y, z)`, each coordinate as the bit pattern of
/// a single-precision number.
#[derive(Clone, Copy, Debug, PartialEq, Eq)]
pub struct Vertex {
    pub position: [u32; 3],
}

/// How often a vertex buffer advances to its next element.
#[derive(Clone, Copy, Debug, PartialEq, Eq)]
pub enum VertexStepMode {
    /// Once for every vertex.
    Vertex,
    /// Once for every instance.
    Instance,
}

/// The format of a vertex attribute.
#[derive(Clone, Copy, Debug, PartialEq, Eq)]
pub enum VertexFormat {
    /// Three single-precision numbers.
    Float32x3,
}

/// One input of the vertex shader, read from a vertex buffer.
#[derive(Clone, Copy, Debug, PartialEq, Eq)]
pub struct VertexAttribute {
    pub format: VertexFormat,
    /// Byte offset of the attribute inside a vertex.
    pub offset: u64,
    /// The location under which the shader reads the attribute.
    pub shader_location: u32,
}

/// How a vertex buffer is read.
#[derive(Clone, Copy, Debug, PartialEq, Eq)]
pub struct VertexBufferLayout {
    /// Bytes from one vertex to the next.
    pub array_stride: u64,
    pub step_mode: VertexStepMode,
    pub attributes: [VertexAttribute; 2],
}

/// The vertex with the given coordinates.
pub open spec fn vertex_at(x: u32, y: u32, z: u32) -> Vertex {
    Vertex { position: [x, y, z] }
}

/// The triangle: `(0, 0.25, 0)`, `(-0.25, -0.25, 0)`, `(0.25, -0.25, 0)`,
/// in counter-clockwise order.
pub open spec fn triangle() -> Seq<Vertex> {
    seq![
        vertex_at(ZERO, QUARTER, ZERO),
        vertex_at(MINUS_QUARTER, MINUS_QUARTER, ZERO),
        vertex_at(QUARTER, MINUS_QUARTER, ZERO),
    ]
}

/// The number of vertices of the triangle.
pub const TRIANGLE_VERTICES: u32 = 3;

/// The layout of a buffer of vertices: vertices follow each other without
/// gaps, the buffer advances once per vertex, and two attributes of three
/// single-precision numbers each are packed one behind the other from the
/// start of a vertex, under shader locations 0 and 1.
pub open spec fn vertex_layout() -> VertexBufferLayout {
    VertexBufferLayout {
        array_stride: 12,
        step_mode: VertexStepMode::Vertex,
        attributes: [
            VertexAttribute { format: VertexFormat::Float32x3, offset: 0, shader_location: 0 },
            VertexAttribute { format: VertexFormat::Float32x3, offset: 12, shader_location: 1 },
        ],
    }
}

impl VertexFormat {
    /// Bytes taken by an attribute of this format.
    pub open spec fn spec_size(self) -> u64 {
        match self {
            VertexFormat::Float32x3 => 12,
        }
    }

    /// Bytes taken by an attribute of this format.
    pub fn size(self) -> (bytes: u64)
        ensures
            bytes == self.spec_size(),
            bytes == POSITION_COMPONENTS * COMPONENT_BYTES,
    {
        match self {
            VertexFormat::Float32x3 => POSITION_COMPONENTS * COMPONENT_BYTES,
        }
    }
}

impl Vertex {
    /// The layout of a buffer of vertices.
    pub fn desc() -> (layout: VertexBufferLayout)
        ensures
            layout == vertex_layout(),
            layout.array_stride == POSITION_COMPONENTS * COMPONENT_BYTES,
            layout.attributes[1].offset == layout.attributes[0].offset
                + layout.attributes[0].format.spec_size(),
    {
        let position = VertexFormat::Float32x3;
        let first = VertexAttribute { format: position, offset: 0, shader_location: 0 };
        let second = VertexAttribute {
            format: position,
            offset: first.offset + position.size(),
            shader_location: 1,
        };
        VertexBufferLayout {
            array_stride: POSITION_COMPONENTS * COMPONENT_BYTES,
            step_mode: VertexStepMode::Vertex,
            attributes: [first, second],
        }
    }
}

/// The vertices of the triangle, in the order in which they are uploaded
/// and drawn.
pub fn triangle_vertices() -> (vertices: [Vertex; 3])
    ensures
        vertices@ == triangle(),
        vertices@.len() == TRIANGLE_VERTICES,
{
    let vertices = [
        Vertex { position: [ZERO, QUARTER, ZERO] },
        Vertex { position: [MINUS_QUARTER, MINUS_QUARTER, ZERO] },
        Vertex { position: [QUARTER, MINUS_QUARTER, ZERO] },
    ];
    assert(vertices@ =~= triangle());
    vertices
}

} // verus!
