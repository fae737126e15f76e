//! The one mesh that is ever uploaded, and how its bytes are laid out.
//!
//! Coordinates are kept as IEEE 754 single-precision bit patterns, so that
//! the contents of the vertex buffer are fixed down to the bit.

use vstd::prelude::*;

verus! {

/// The bit pattern of `0.0`.
pub const ZERO: u32 = 0x0000_0000;

/// The bit pattern of `0.5`: sign 0, biased exponent 126, fraction 0.
pub const HALF: u32 = 0x3F00_0000;

/// The bit pattern of `-0.5`: `HALF` with the sign bit set.
pub const NEG_HALF: u32 = 0xBF00_0000;

/// Bytes in one coordinate.
pub const COORD_BYTES: usize = 4;

/// Coordinates in one vertex: x, y and z.
pub const COORDS_PER_VERTEX: usize = 3;

/// Vertices in the mesh.
pub const VERTEX_COUNT: usize = 3;

/// The attribute slot through which the vertex stage reads positions.
pub const POSITION_SLOT: u32 = 0;

/// A position, each coordinate a single-precision bit pattern.
#[derive(Clone, Copy, Debug, PartialEq, Eq, Structural)]
pub struct Vertex {
    pub x: u32,
    pub y: u32,
    pub z: u32,
}

/// Three vertices, in the order in which they are uploaded and drawn.
#[derive(Clone, Copy, Debug, PartialEq, Eq, Structural)]
pub struct Triangle {
    pub a: Vertex,
    pub b: Vertex,
    pub c: Vertex,
}

/// How one attribute is read out of the vertex buffer: `components`
/// consecutive single-precision floats per vertex, not normalised, the first
/// at byte `offset`, and `stride` bytes from one vertex to the next.
#[derive(Clone, Copy, Debug, PartialEq, Eq, Structural)]
pub struct AttributeLayout {
    pub slot: u32,
    pub components: i32,
    pub stride: i32,
    pub offset: usize,
}

/// The triangle that is drawn: centred at the origin in the plane z = 0,
/// with its apex at (0, 0.5) and its base from (-0.5, -0.5) to (0.5, -0.5).
pub open spec fn fixed_triangle() -> Triangle {
    Triangle {
        a: Vertex { x: ZERO, y: HALF, z: ZERO },
        b: Vertex { x: NEG_HALF, y: NEG_HALF, z: ZERO },
        c: Vertex { x: HALF, y: NEG_HALF, z: ZERO },
    }
}

/// The layout of the position attribute: slot 0, three floats per vertex,
/// tightly packed from the start of the buffer.
pub open spec fn position_layout() -> AttributeLayout {
    AttributeLayout { slot: 0, components: 3, stride: 12, offset: 0 }
}

impl Triangle {
    /// The mesh as it lies in the vertex buffer: nine coordinates, vertex by
    /// vertex, x before y before z.
    pub open spec fn words(self) -> Seq<u32> {
        seq![
            self.a.x,
            self.a.y,
            self.a.z,
            self.b.x,
            self.b.y,
            self.b.z,
            self.c.x,
            self.c.y,
            self.c.z,
        ]
    }

    /// The size of the mesh in the vertex buffer, in bytes.
    pub open spec fn byte_len(self) -> nat {
        self.words().len() * 4
    }

    /// Returns `fixed_triangle`.
    pub fn fixed() -> (t: Triangle)
        ensures
            t == fixed_triangle(),
    {
        Triangle {
            a: Vertex { x: ZERO, y: HALF, z: ZERO },
            b: Vertex { x: NEG_HALF, y: NEG_HALF, z: ZERO },
            c: Vertex { x: HALF, y: NEG_HALF, z: ZERO },
        }
    }

    /// Flattens the mesh into the coordinates to upload.
    pub fn to_words(&self) -> (out: Vec<u32>)
        ensures
            out@ == self.words(),
    {
        let mut out: Vec<u32> = Vec::new();
        out.push(self.a.x);
        out.push(self.a.y);
        out.push(self.a.z);
        out.push(self.b.x);
        out.push(self.b.y);
        out.push(self.b.z);
        out.push(self.c.x);
        out.push(self.c.y);
        out.push(self.c.z);
        out
    }

    /// The number of bytes to upload: four for each of the nine
    /// coordinates.
    pub fn upload_len(&self) -> (n: usize)
        ensures
            n == self.byte_len(),
            n == 36,
    {
        VERTEX_COUNT * COORDS_PER_VERTEX * COORD_BYTES
    }
}

impl AttributeLayout {
    /// Returns `position_layout`. The stride is the size of one vertex, so
    /// that the positions follow one another without gaps.
    pub fn position() -> (layout: AttributeLayout)
        ensures
            layout == position_layout(),
            layout.stride == layout.components * COORD_BYTES,
    {
        AttributeLayout { slot: POSITION_SLOT, components: 3, stride: 12, offset: 0 }
    }
}

} // verus!
