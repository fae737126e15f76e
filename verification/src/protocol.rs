//! The calls that the controller asks for, and the answers it takes.
//!
//! An `Action` names one call to the window system, the file system or the
//! graphics device, with every argument that the controller decides. A
//! `Reply` carries back what the call returned, as plain values.

use crate::geometry::{AttributeLayout, Triangle};
use crate::handles::{BufferHandle, ProgramHandle, ShaderHandle, Stage, VertexArrayHandle};
use crate::input::InputEvent;
use vstd::prelude::*;

verus! {

/// One call for the shell to make.
#[derive(Clone, Copy, Debug, PartialEq, Eq, Structural)]
pub enum Action {
    /// Initialise the windowing subsystem. Answer: `Done` or `Failed`.
    InitWindowing,
    /// Ask for a context of at least this version of the graphics API.
    HintContextVersion { major: u32, minor: u32 },
    /// Ask for a context without the deprecated fixed-function features.
    HintCoreProfile,
    /// Create the window, in windowed mode and under the configured title.
    /// Answer: `Done` or `Failed`.
    CreateWindow { width: u32, height: u32 },
    /// Make the window's context the one that device calls go to.
    MakeContextCurrent,
    /// Have key events delivered to the window's queue.
    EnableKeyEvents,
    /// Resolve the device's functions through the current context.
    LoadDeviceFunctions,
    /// Open the source file of a stage. Answer: `Done` or `Failed`.
    OpenSource { stage: Stage },
    /// Read the opened source file to its end as text. Answer: `Done` or
    /// `Failed`.
    ReadSource { stage: Stage },
    /// Create a shader object of a stage. Answer: `Handle`.
    CreateShader { stage: Stage },
    /// Give the shader the source text read for its stage.
    SubmitSource { shader: ShaderHandle },
    /// Compile the shader.
    CompileShader { shader: ShaderHandle },
    /// Ask whether the last compile succeeded. Answer: `Status`.
    QueryCompileStatus { shader: ShaderHandle },
    /// Ask for the length of the shader's log, terminator included.
    /// Answer: `Length`.
    QueryShaderLogLength { shader: ShaderHandle },
    /// Fetch the shader's log into a buffer of `capacity` bytes. Answer:
    /// `Bytes`, the whole buffer.
    FetchShaderLog { shader: ShaderHandle, capacity: i32 },
    /// Create a program object. Answer: `Handle`.
    CreateProgram,
    /// Attach a shader to the program.
    AttachShader { program: ProgramHandle, shader: ShaderHandle },
    /// Link the attached shaders.
    LinkProgram { program: ProgramHandle },
    /// Ask whether the last link succeeded. Answer: `Status`.
    QueryLinkStatus { program: ProgramHandle },
    /// Ask for the length of the program's log, terminator included.
    /// Answer: `Length`.
    QueryProgramLogLength { program: ProgramHandle },
    /// Fetch the program's log into a buffer of `capacity` bytes. Answer:
    /// `Bytes`, the whole buffer.
    FetchProgramLog { program: ProgramHandle, capacity: i32 },
    /// Create one vertex array object. Answer: `Handle`.
    CreateVertexArray,
    /// Create one buffer object. Answer: `Handle`.
    CreateBuffer,
    /// Make the vertex array the current one.
    BindVertexArray { array: VertexArrayHandle },
    /// Make the buffer the current vertex-data buffer.
    BindArrayBuffer { buffer: BufferHandle },
    /// Copy the mesh into the current vertex-data buffer, marked as data
    /// that is written once and drawn many times.
    UploadVertices { mesh: Triangle },
    /// Describe an attribute of the current vertex array.
    DescribeAttribute { layout: AttributeLayout },
    /// Switch an attribute slot of the current vertex array on.
    EnableAttribute { slot: u32 },
    /// Leave no vertex-data buffer current.
    UnbindArrayBuffer,
    /// Leave no vertex array current.
    UnbindVertexArray,
    /// Take every event that is waiting in the window's queue, without
    /// blocking. Answer: `Events`, in the order of the queue, with
    /// `InputEvent::CloseRequested` last if the window has been asked to
    /// close.
    PollEvents,
    /// Clear the colour buffer.
    ClearColor,
    /// Make the program the one that draws.
    UseProgram { program: ProgramHandle },
    /// Draw `count` vertices of the current vertex array, from vertex
    /// `first`, three to a triangle.
    DrawTriangles { first: i32, count: i32 },
    /// Show the frame: swap the front and back buffers.
    SwapBuffers,
}

/// What a call returned.
#[derive(Debug, PartialEq, Eq)]
pub enum Reply {
    /// The call was made; where it can fail, it succeeded.
    Done,
    /// The call failed.
    Failed,
    /// The identifier of the object that was created.
    Handle(u32),
    /// A status flag.
    Status(i32),
    /// A length in bytes.
    Length(i32),
    /// The contents of a buffer that the device filled.
    Bytes(Vec<u8>),
    /// The events that were waiting.
    Events(Vec<InputEvent>),
}

impl Action {
    /// Whether the call creates, feeds, compiles or inspects a shader.
    pub open spec fn is_shader_call(self) -> bool {
        self is CreateShader || self is SubmitSource || self is CompileShader
            || self is QueryCompileStatus || self is QueryShaderLogLength
            || self is FetchShaderLog
    }

    /// Whether the call creates an object that lives as long as the
    /// process: the window, a shader, the program, the vertex array or the
    /// buffer.
    pub open spec fn creates_object(self) -> bool {
        self is CreateWindow || self is CreateShader || self is CreateProgram
            || self is CreateVertexArray || self is CreateBuffer
    }
}

} // verus!
