//! Identifiers that the graphics device hands out.
//!
//! Each kind of object has a type of its own, so that a shader can never be
//! bound where a buffer is expected.

use vstd::prelude::*;

verus! {

/// The two programmable stages of the pipeline.
#[derive(Clone, Copy, Debug, PartialEq, Eq, Structural)]
pub enum Stage {
    Vertex,
    Fragment,
}

/// A shader object of one stage.
#[derive(Clone, Copy, Debug, PartialEq, Eq, Structural)]
pub struct ShaderHandle {
    pub id: u32,
    pub stage: Stage,
}

/// A program object: a pair of stages linked into one pipeline.
#[derive(Clone, Copy, Debug, PartialEq, Eq, Structural)]
pub struct ProgramHandle {
    pub id: u32,
}

/// A vertex array object: the attribute layout over a vertex buffer.
#[derive(Clone, Copy, Debug, PartialEq, Eq, Structural)]
pub struct VertexArrayHandle {
    pub id: u32,
}

/// A buffer object holding raw vertex bytes.
#[derive(Clone, Copy, Debug, PartialEq, Eq, Structural)]
pub struct BufferHandle {
    pub id: u32,
}

} // verus!
