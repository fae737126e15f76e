//! The controller: which call comes next, and what its answer leads to.
//!
//! A `Driver` is the whole state of a run. It names the pending call with
//! `action`; the shell makes that call and hands the answer to `advance`,
//! which yields the driver for the next call or the outcome of the run.
//!
//! A run starts the window system, opens the window, reads both shader
//! sources, compiles and links them, uploads the triangle, and then polls
//! for events and draws one frame per iteration until the loop is closing.

use crate::config::{CONTEXT_MAJOR, CONTEXT_MINOR, WINDOW_HEIGHT, WINDOW_WIDTH};
use crate::diagnostic::{is_success, log_text, read_log, succeeded};
use crate::failure::{Failure, FailureView};
use crate::geometry::{
    fixed_triangle, position_layout, AttributeLayout, Triangle, POSITION_SLOT, VERTEX_COUNT,
};
use crate::handles::{BufferHandle, ProgramHandle, ShaderHandle, Stage, VertexArrayHandle};
use crate::input::LoopState;
use crate::protocol::{Action, Reply};
use vstd::prelude::*;
use vstd::utf8::{decode_utf8, valid_utf8};

verus! {

/// The call that a run has reached. Each phase stands for one pending call.
#[derive(Clone, Copy, Debug, PartialEq, Eq, Structural)]
pub enum Phase {
    InitWindowing,
    HintVersion,
    HintProfile,
    CreateWindow,
    MakeCurrent,
    EnableKeys,
    LoadFunctions,
    OpenSource(Stage),
    ReadSource(Stage),
    CreateShader(Stage),
    SubmitSource(Stage),
    CompileShader(Stage),
    CompileStatus(Stage),
    ShaderLogLength(Stage),
    ShaderLog(Stage),
    CreateProgram,
    AttachShader(Stage),
    LinkProgram,
    LinkStatus,
    ProgramLogLength,
    ProgramLog,
    CreateVertexArray,
    CreateBuffer,
    BindVertexArray,
    BindBuffer,
    UploadVertices,
    DescribeAttribute,
    EnableAttribute,
    UnbindBuffer,
    UnbindVertexArray,
    Poll,
    Clear,
    UseProgram,
    BindFrameArray,
    Draw,
    Swap,
}

/// The state of a run between two calls.
///
/// An identifier is meaningful from the phase that follows its creation;
/// before that it is zero. `log_len` is the reported length of the log
/// being fetched.
#[derive(Clone, Copy, Debug, PartialEq, Eq, Structural)]
pub struct Driver {
    pub phase: Phase,
    pub vertex_id: u32,
    pub fragment_id: u32,
    pub program_id: u32,
    pub array_id: u32,
    pub buffer_id: u32,
    pub log_len: i32,
    pub loop_state: LoopState,
}

/// What answering a call leads to.
#[derive(Debug, PartialEq, Eq)]
pub enum Step {
    /// The run goes on with another call.
    Continue(Driver),
    /// The run is over: the window was closed, or a call failed.
    Stop(Result<(), Failure>),
}

/// A `Step` with the text of a failure as a sequence of characters.
pub enum StepView {
    Continue(Driver),
    Stop(Result<(), FailureView>),
}

impl View for Step {
    type V = StepView;

    open spec fn view(&self) -> StepView {
        match self {
            Step::Continue(driver) => StepView::Continue(*driver),
            Step::Stop(Ok(_)) => StepView::Stop(Ok(())),
            Step::Stop(Err(failure)) => StepView::Stop(Err(failure@)),
        }
    }
}

/// The failure that a rejected compile ends in: it carries the text of the
/// log, where that is well-formed UTF-8.
pub open spec fn compile_failure(stage: Stage, text: Seq<u8>) -> FailureView {
    if valid_utf8(text) {
        FailureView::Compile { stage, log: decode_utf8(text) }
    } else {
        FailureView::ShaderLogNotText { stage }
    }
}

/// The failure that a rejected link ends in: it carries the text of the
/// log, where that is well-formed UTF-8.
pub open spec fn link_failure(text: Seq<u8>) -> FailureView {
    if valid_utf8(text) {
        FailureView::Link { log: decode_utf8(text) }
    } else {
        FailureView::ProgramLogNotText
    }
}

impl Phase {
    /// Whether the answer to the pending call is read. The answer to any
    /// other call is ignored.
    pub open spec fn reads_reply(self) -> bool {
        self is InitWindowing || self is CreateWindow || self is OpenSource
            || self is ReadSource || self is CreateShader || self is CompileStatus
            || self is ShaderLogLength || self is ShaderLog || self is CreateProgram
            || self is LinkStatus || self is ProgramLogLength || self is ProgramLog
            || self is CreateVertexArray || self is CreateBuffer || self is Poll
    }

    /// The phase after a call that returns nothing. The swap is not among
    /// them: what follows it depends on the state of the loop.
    pub open spec fn following(self) -> Phase {
        match self {
            Phase::HintVersion => Phase::HintProfile,
            Phase::HintProfile => Phase::CreateWindow,
            Phase::MakeCurrent => Phase::EnableKeys,
            Phase::EnableKeys => Phase::LoadFunctions,
            Phase::LoadFunctions => Phase::OpenSource(Stage::Vertex),
            Phase::SubmitSource(stage) => Phase::CompileShader(stage),
            Phase::CompileShader(stage) => Phase::CompileStatus(stage),
            Phase::AttachShader(Stage::Vertex) => Phase::AttachShader(Stage::Fragment),
            Phase::AttachShader(Stage::Fragment) => Phase::LinkProgram,
            Phase::LinkProgram => Phase::LinkStatus,
            Phase::BindVertexArray => Phase::BindBuffer,
            Phase::BindBuffer => Phase::UploadVertices,
            Phase::UploadVertices => Phase::DescribeAttribute,
            Phase::DescribeAttribute => Phase::EnableAttribute,
            Phase::EnableAttribute => Phase::UnbindBuffer,
            Phase::UnbindBuffer => Phase::UnbindVertexArray,
            Phase::UnbindVertexArray => Phase::Poll,
            Phase::Clear => Phase::UseProgram,
            Phase::UseProgram => Phase::BindFrameArray,
            Phase::BindFrameArray => Phase::Draw,
            Phase::Draw => Phase::Swap,
            _ => self,
        }
    }

    /// The phase after a stage has been read to its end: the other source
    /// is read before anything is compiled.
    pub open spec fn after_read(stage: Stage) -> Phase {
        match stage {
            Stage::Vertex => Phase::OpenSource(Stage::Fragment),
            Stage::Fragment => Phase::CreateShader(Stage::Vertex),
        }
    }

    /// The phase after a stage has compiled: the other stage is compiled
    /// before the two are linked.
    pub open spec fn after_compile(stage: Stage) -> Phase {
        match stage {
            Stage::Vertex => Phase::CreateShader(Stage::Fragment),
            Stage::Fragment => Phase::CreateProgram,
        }
    }

    /// Whether the phase belongs to the draw loop.
    pub open spec fn in_loop(self) -> bool {
        self is Poll || self is Clear || self is UseProgram || self is BindFrameArray
            || self is Draw || self is Swap
    }
}

impl Driver {
    /// The state before the first call.
    pub open spec fn initial() -> Driver {
        Driver {
            phase: Phase::InitWindowing,
            vertex_id: 0,
            fragment_id: 0,
            program_id: 0,
            array_id: 0,
            buffer_id: 0,
            log_len: 0,
            loop_state: LoopState::Running,
        }
    }

    /// This state, moved to another phase.
    pub open spec fn at(self, phase: Phase) -> Driver {
        Driver { phase, ..self }
    }

    /// The shader of a stage.
    pub open spec fn shader(self, stage: Stage) -> ShaderHandle {
        match stage {
            Stage::Vertex => ShaderHandle { id: self.vertex_id, stage },
            Stage::Fragment => ShaderHandle { id: self.fragment_id, stage },
        }
    }

    /// The program.
    pub open spec fn program(self) -> ProgramHandle {
        ProgramHandle { id: self.program_id }
    }

    /// The vertex array.
    pub open spec fn array(self) -> VertexArrayHandle {
        VertexArrayHandle { id: self.array_id }
    }

    /// The vertex buffer.
    pub open spec fn buffer(self) -> BufferHandle {
        BufferHandle { id: self.buffer_id }
    }

    /// This state with the identifier of a stage's shader recorded.
    pub open spec fn with_shader(self, stage: Stage, id: u32) -> Driver {
        match stage {
            Stage::Vertex => Driver { vertex_id: id, ..self },
            Stage::Fragment => Driver { fragment_id: id, ..self },
        }
    }

    /// The pending call, with its arguments.
    pub open spec fn pending(self) -> Action {
        match self.phase {
            Phase::InitWindowing => Action::InitWindowing,
            Phase::HintVersion => Action::HintContextVersion { major: 3, minor: 3 },
            Phase::HintProfile => Action::HintCoreProfile,
            Phase::CreateWindow => Action::CreateWindow { width: 800, height: 600 },
            Phase::MakeCurrent => Action::MakeContextCurrent,
            Phase::EnableKeys => Action::EnableKeyEvents,
            Phase::LoadFunctions => Action::LoadDeviceFunctions,
            Phase::OpenSource(stage) => Action::OpenSource { stage },
            Phase::ReadSource(stage) => Action::ReadSource { stage },
            Phase::CreateShader(stage) => Action::CreateShader { stage },
            Phase::SubmitSource(stage) => Action::SubmitSource { shader: self.shader(stage) },
            Phase::CompileShader(stage) => Action::CompileShader { shader: self.shader(stage) },
            Phase::CompileStatus(stage) => Action::QueryCompileStatus {
                shader: self.shader(stage),
            },
            Phase::ShaderLogLength(stage) => Action::QueryShaderLogLength {
                shader: self.shader(stage),
            },
            Phase::ShaderLog(stage) => Action::FetchShaderLog {
                shader: self.shader(stage),
                capacity: self.log_len,
            },
            Phase::CreateProgram => Action::CreateProgram,
            Phase::AttachShader(stage) => Action::AttachShader {
                program: self.program(),
                shader: self.shader(stage),
            },
            Phase::LinkProgram => Action::LinkProgram { program: self.program() },
            Phase::LinkStatus => Action::QueryLinkStatus { program: self.program() },
            Phase::ProgramLogLength => Action::QueryProgramLogLength { program: self.program() },
            Phase::ProgramLog => Action::FetchProgramLog {
                program: self.program(),
                capacity: self.log_len,
            },
            Phase::CreateVertexArray => Action::CreateVertexArray,
            Phase::CreateBuffer => Action::CreateBuffer,
            Phase::BindVertexArray => Action::BindVertexArray { array: self.array() },
            Phase::BindBuffer => Action::BindArrayBuffer { buffer: self.buffer() },
            Phase::UploadVertices => Action::UploadVertices { mesh: fixed_triangle() },
            Phase::DescribeAttribute => Action::DescribeAttribute { layout: position_layout() },
            Phase::EnableAttribute => Action::EnableAttribute { slot: 0 },
            Phase::UnbindBuffer => Action::UnbindArrayBuffer,
            Phase::UnbindVertexArray => Action::UnbindVertexArray,
            Phase::Poll => Action::PollEvents,
            Phase::Clear => Action::ClearColor,
            Phase::UseProgram => Action::UseProgram { program: self.program() },
            Phase::BindFrameArray => Action::BindVertexArray { array: self.array() },
            Phase::Draw => Action::DrawTriangles { first: 0, count: 3 },
            Phase::Swap => Action::SwapBuffers,
        }
    }

    /// The step after a call that either succeeds or fails.
    pub open spec fn pass_or_fail(self, reply: Reply, pass: Phase, fail: FailureView) -> StepView {
        match reply {
            Reply::Done => StepView::Continue(self.at(pass)),
            Reply::Failed => StepView::Stop(Err(fail)),
            _ => StepView::Stop(Err(FailureView::UnexpectedReply)),
        }
    }

    /// What the answer to the pending call leads to.
    pub open spec fn next(self, reply: Reply) -> StepView {
        match self.phase {
            Phase::InitWindowing => self.pass_or_fail(
                reply,
                Phase::HintVersion,
                FailureView::WindowingInit,
            ),
            Phase::CreateWindow => self.pass_or_fail(
                reply,
                Phase::MakeCurrent,
                FailureView::WindowCreation,
            ),
            Phase::OpenSource(stage) => self.pass_or_fail(
                reply,
                Phase::ReadSource(stage),
                FailureView::SourceOpen { stage },
            ),
            Phase::ReadSource(stage) => self.pass_or_fail(
                reply,
                Phase::after_read(stage),
                FailureView::SourceRead { stage },
            ),
            Phase::CreateShader(stage) => match reply {
                Reply::Handle(id) => StepView::Continue(
                    self.with_shader(stage, id).at(Phase::SubmitSource(stage)),
                ),
                _ => StepView::Stop(Err(FailureView::UnexpectedReply)),
            },
            Phase::CompileStatus(stage) => match reply {
                Reply::Status(status) => if is_success(status) {
                    StepView::Continue(self.at(Phase::after_compile(stage)))
                } else {
                    StepView::Continue(self.at(Phase::ShaderLogLength(stage)))
                },
                _ => StepView::Stop(Err(FailureView::UnexpectedReply)),
            },
            Phase::ShaderLogLength(stage) => match reply {
                Reply::Length(reported) => if reported >= 1 {
                    StepView::Continue(
                        Driver { log_len: reported, ..self }.at(Phase::ShaderLog(stage)),
                    )
                } else {
                    StepView::Stop(Err(FailureView::Compile { stage, log: Seq::empty() }))
                },
                _ => StepView::Stop(Err(FailureView::UnexpectedReply)),
            },
            Phase::ShaderLog(stage) => match reply {
                Reply::Bytes(buffer) => StepView::Stop(
                    Err(compile_failure(stage, log_text(buffer@, self.log_len))),
                ),
                _ => StepView::Stop(Err(FailureView::UnexpectedReply)),
            },
            Phase::CreateProgram => match reply {
                Reply::Handle(id) => StepView::Continue(
                    Driver { program_id: id, ..self }.at(Phase::AttachShader(Stage::Vertex)),
                ),
                _ => StepView::Stop(Err(FailureView::UnexpectedReply)),
            },
            Phase::LinkStatus => match reply {
                Reply::Status(status) => if is_success(status) {
                    StepView::Continue(self.at(Phase::CreateVertexArray))
                } else {
                    StepView::Continue(self.at(Phase::ProgramLogLength))
                },
                _ => StepView::Stop(Err(FailureView::UnexpectedReply)),
            },
            Phase::ProgramLogLength => match reply {
                Reply::Length(reported) => if reported >= 1 {
                    StepView::Continue(Driver { log_len: reported, ..self }.at(Phase::ProgramLog))
                } else {
                    StepView::Stop(Err(FailureView::Link { log: Seq::empty() }))
                },
                _ => StepView::Stop(Err(FailureView::UnexpectedReply)),
            },
            Phase::ProgramLog => match reply {
                Reply::Bytes(buffer) => StepView::Stop(
                    Err(link_failure(log_text(buffer@, self.log_len))),
                ),
                _ => StepView::Stop(Err(FailureView::UnexpectedReply)),
            },
            Phase::CreateVertexArray => match reply {
                Reply::Handle(id) => StepView::Continue(
                    Driver { array_id: id, ..self }.at(Phase::CreateBuffer),
                ),
                _ => StepView::Stop(Err(FailureView::UnexpectedReply)),
            },
            Phase::CreateBuffer => match reply {
                Reply::Handle(id) => StepView::Continue(
                    Driver { buffer_id: id, ..self }.at(Phase::BindVertexArray),
                ),
                _ => StepView::Stop(Err(FailureView::UnexpectedReply)),
            },
            Phase::Poll => match reply {
                Reply::Events(events) => StepView::Continue(
                    Driver { loop_state: self.loop_state.after_all(events@), ..self }.at(
                        Phase::Clear,
                    ),
                ),
                _ => StepView::Stop(Err(FailureView::UnexpectedReply)),
            },
            Phase::Swap => if self.loop_state == LoopState::Closing {
                StepView::Stop(Ok(()))
            } else {
                StepView::Continue(self.at(Phase::Poll))
            },
            _ => StepView::Continue(self.at(self.phase.following())),
        }
    }

    /// Starts a run.
    pub fn new() -> (driver: Driver)
        ensures
            driver == Driver::initial(),
    {
        Driver {
            phase: Phase::InitWindowing,
            vertex_id: 0,
            fragment_id: 0,
            program_id: 0,
            array_id: 0,
            buffer_id: 0,
            log_len: 0,
            loop_state: LoopState::Running,
        }
    }

    /// Names the call to make next.
    pub fn action(&self) -> (action: Action)
        ensures
            action == self.pending(),
    {
        let program = ProgramHandle { id: self.program_id };
        let array = VertexArrayHandle { id: self.array_id };
        match self.phase {
            Phase::InitWindowing => Action::InitWindowing,
            Phase::HintVersion => Action::HintContextVersion {
                major: CONTEXT_MAJOR,
                minor: CONTEXT_MINOR,
            },
            Phase::HintProfile => Action::HintCoreProfile,
            Phase::CreateWindow => Action::CreateWindow {
                width: WINDOW_WIDTH,
                height: WINDOW_HEIGHT,
            },
            Phase::MakeCurrent => Action::MakeContextCurrent,
            Phase::EnableKeys => Action::EnableKeyEvents,
            Phase::LoadFunctions => Action::LoadDeviceFunctions,
            Phase::OpenSource(stage) => Action::OpenSource { stage },
            Phase::ReadSource(stage) => Action::ReadSource { stage },
            Phase::CreateShader(stage) => Action::CreateShader { stage },
            Phase::SubmitSource(stage) => Action::SubmitSource { shader: self.shader_of(stage) },
            Phase::CompileShader(stage) => Action::CompileShader { shader: self.shader_of(stage) },
            Phase::CompileStatus(stage) => Action::QueryCompileStatus {
                shader: self.shader_of(stage),
            },
            Phase::ShaderLogLength(stage) => Action::QueryShaderLogLength {
                shader: self.shader_of(stage),
            },
            Phase::ShaderLog(stage) => Action::FetchShaderLog {
                shader: self.shader_of(stage),
                capacity: self.log_len,
            },
            Phase::CreateProgram => Action::CreateProgram,
            Phase::AttachShader(stage) => Action::AttachShader {
                program,
                shader: self.shader_of(stage),
            },
            Phase::LinkProgram => Action::LinkProgram { program },
            Phase::LinkStatus => Action::QueryLinkStatus { program },
            Phase::ProgramLogLength => Action::QueryProgramLogLength { program },
            Phase::ProgramLog => Action::FetchProgramLog { program, capacity: self.log_len },
            Phase::CreateVertexArray => Action::CreateVertexArray,
            Phase::CreateBuffer => Action::CreateBuffer,
            Phase::BindVertexArray => Action::BindVertexArray { array },
            Phase::BindBuffer => Action::BindArrayBuffer {
                buffer: BufferHandle { id: self.buffer_id },
            },
            Phase::UploadVertices => Action::UploadVertices { mesh: Triangle::fixed() },
            Phase::DescribeAttribute => Action::DescribeAttribute {
                layout: AttributeLayout::position(),
            },
            Phase::EnableAttribute => Action::EnableAttribute { slot: POSITION_SLOT },
            Phase::UnbindBuffer => Action::UnbindArrayBuffer,
            Phase::UnbindVertexArray => Action::UnbindVertexArray,
            Phase::Poll => Action::PollEvents,
            Phase::Clear => Action::ClearColor,
            Phase::UseProgram => Action::UseProgram { program },
            Phase::BindFrameArray => Action::BindVertexArray { array },
            Phase::Draw => Action::DrawTriangles { first: 0, count: VERTEX_COUNT as i32 },
            Phase::Swap => Action::SwapBuffers,
        }
    }

    /// Returns the shader of a stage.
    pub fn shader_of(&self, stage: Stage) -> (shader: ShaderHandle)
        ensures
            shader == self.shader(stage),
    {
        match stage {
            Stage::Vertex => ShaderHandle { id: self.vertex_id, stage },
            Stage::Fragment => ShaderHandle { id: self.fragment_id, stage },
        }
    }

    /// Moves to another phase.
    fn goto(self, phase: Phase) -> (step: Step)
        ensures
            step@ == StepView::Continue(self.at(phase)),
    {
        Step::Continue(Driver { phase, ..self })
    }

    /// Ends the run with a failure.
    fn fail(failure: Failure) -> (step: Step)
        ensures
            step@ == StepView::Stop(Err(failure@)),
    {
        Step::Stop(Err(failure))
    }

    /// Takes the answer to a call that either succeeds or fails.
    fn expect_done(self, reply: Reply, pass: Phase, fail: Failure) -> (step: Step)
        ensures
            step@ == self.pass_or_fail(reply, pass, fail@),
    {
        match reply {
            Reply::Done => self.goto(pass),
            Reply::Failed => Driver::fail(fail),
            _ => Driver::fail(Failure::UnexpectedReply),
        }
    }

    /// Takes the answer to the pending call.
    pub fn advance(self, reply: Reply) -> (step: Step)
        ensures
            step@ == self.next(reply),
    {
        match self.phase {
            Phase::InitWindowing => self.expect_done(
                reply,
                Phase::HintVersion,
                Failure::WindowingInit,
            ),
            Phase::HintVersion => self.goto(Phase::HintProfile),
            Phase::HintProfile => self.goto(Phase::CreateWindow),
            Phase::CreateWindow => self.expect_done(
                reply,
                Phase::MakeCurrent,
                Failure::WindowCreation,
            ),
            Phase::MakeCurrent => self.goto(Phase::EnableKeys),
            Phase::EnableKeys => self.goto(Phase::LoadFunctions),
            Phase::LoadFunctions => self.goto(Phase::OpenSource(Stage::Vertex)),
            Phase::OpenSource(stage) => self.expect_done(
                reply,
                Phase::ReadSource(stage),
                Failure::SourceOpen { stage },
            ),
            Phase::ReadSource(stage) => {
                let pass = match stage {
                    Stage::Vertex => Phase::OpenSource(Stage::Fragment),
                    Stage::Fragment => Phase::CreateShader(Stage::Vertex),
                };
                self.expect_done(reply, pass, Failure::SourceRead { stage })
            },
            Phase::CreateShader(stage) => match reply {
                Reply::Handle(id) => {
                    let recorded = match stage {
                        Stage::Vertex => Driver { vertex_id: id, ..self },
                        Stage::Fragment => Driver { fragment_id: id, ..self },
                    };
                    recorded.goto(Phase::SubmitSource(stage))
                },
                _ => Driver::fail(Failure::UnexpectedReply),
            },
            Phase::SubmitSource(stage) => self.goto(Phase::CompileShader(stage)),
            Phase::CompileShader(stage) => self.goto(Phase::CompileStatus(stage)),
            Phase::CompileStatus(stage) => match reply {
                Reply::Status(status) => {
                    if succeeded(status) {
                        match stage {
                            Stage::Vertex => self.goto(Phase::CreateShader(Stage::Fragment)),
                            Stage::Fragment => self.goto(Phase::CreateProgram),
                        }
                    } else {
                        self.goto(Phase::ShaderLogLength(stage))
                    }
                },
                _ => Driver::fail(Failure::UnexpectedReply),
            },
            Phase::ShaderLogLength(stage) => match reply {
                Reply::Length(reported) => {
                    if reported >= 1 {
                        Driver { log_len: reported, ..self }.goto(Phase::ShaderLog(stage))
                    } else {
                        Driver::fail(Failure::Compile { stage, log: String::new() })
                    }
                },
                _ => Driver::fail(Failure::UnexpectedReply),
            },
            Phase::ShaderLog(stage) => match reply {
                Reply::Bytes(buffer) => match read_log(buffer, self.log_len) {
                    Some(log) => Driver::fail(Failure::Compile { stage, log }),
                    None => Driver::fail(Failure::ShaderLogNotText { stage }),
                },
                _ => Driver::fail(Failure::UnexpectedReply),
            },
            Phase::CreateProgram => match reply {
                Reply::Handle(id) => Driver { program_id: id, ..self }.goto(
                    Phase::AttachShader(Stage::Vertex),
                ),
                _ => Driver::fail(Failure::UnexpectedReply),
            },
            Phase::AttachShader(stage) => match stage {
                Stage::Vertex => self.goto(Phase::AttachShader(Stage::Fragment)),
                Stage::Fragment => self.goto(Phase::LinkProgram),
            },
            Phase::LinkProgram => self.goto(Phase::LinkStatus),
            Phase::LinkStatus => match reply {
                Reply::Status(status) => {
                    if succeeded(status) {
                        self.goto(Phase::CreateVertexArray)
                    } else {
                        self.goto(Phase::ProgramLogLength)
                    }
                },
                _ => Driver::fail(Failure::UnexpectedReply),
            },
            Phase::ProgramLogLength => match reply {
                Reply::Length(reported) => {
                    if reported >= 1 {
                        Driver { log_len: reported, ..self }.goto(Phase::ProgramLog)
                    } else {
                        Driver::fail(Failure::Link { log: String::new() })
                    }
                },
                _ => Driver::fail(Failure::UnexpectedReply),
            },
            Phase::ProgramLog => match reply {
                Reply::Bytes(buffer) => match read_log(buffer, self.log_len) {
                    Some(log) => Driver::fail(Failure::Link { log }),
                    None => Driver::fail(Failure::ProgramLogNotText),
                },
                _ => Driver::fail(Failure::UnexpectedReply),
            },
            Phase::CreateVertexArray => match reply {
                Reply::Handle(id) => Driver { array_id: id, ..self }.goto(Phase::CreateBuffer),
                _ => Driver::fail(Failure::UnexpectedReply),
            },
            Phase::CreateBuffer => match reply {
                Reply::Handle(id) => Driver { buffer_id: id, ..self }.goto(
                    Phase::BindVertexArray,
                ),
                _ => Driver::fail(Failure::UnexpectedReply),
            },
            Phase::BindVertexArray => self.goto(Phase::BindBuffer),
            Phase::BindBuffer => self.goto(Phase::UploadVertices),
            Phase::UploadVertices => self.goto(Phase::DescribeAttribute),
            Phase::DescribeAttribute => self.goto(Phase::EnableAttribute),
            Phase::EnableAttribute => self.goto(Phase::UnbindBuffer),
            Phase::UnbindBuffer => self.goto(Phase::UnbindVertexArray),
            Phase::UnbindVertexArray => self.goto(Phase::Poll),
            Phase::Poll => match reply {
                Reply::Events(events) => {
                    let loop_state = self.loop_state.drain(&events);
                    Driver { loop_state, ..self }.goto(Phase::Clear)
                },
                _ => Driver::fail(Failure::UnexpectedReply),
            },
            Phase::Clear => self.goto(Phase::UseProgram),
            Phase::UseProgram => self.goto(Phase::BindFrameArray),
            Phase::BindFrameArray => self.goto(Phase::Draw),
            Phase::Draw => self.goto(Phase::Swap),
            Phase::Swap => match self.loop_state {
                LoopState::Closing => Step::Stop(Ok(())),
                LoopState::Running => self.goto(Phase::Poll),
            },
        }
    }
}

} // verus!
