//! The fatal errors of a run.
//!
//! Nothing is retried: the first failure ends the run, and its message is
//! what the caller reports.

use crate::handles::Stage;
use vstd::prelude::*;

verus! {

/// Why a run ended before the window was closed.
#[derive(Debug, PartialEq, Eq)]
pub enum Failure {
    /// The windowing subsystem could not be initialised.
    WindowingInit,
    /// The window or its graphics context could not be created.
    WindowCreation,
    /// The source file of a stage could not be opened.
    SourceOpen { stage: Stage },
    /// The source file of a stage could not be read to its end as text.
    SourceRead { stage: Stage },
    /// The device rejected the source of a stage; `log` is its diagnostic.
    Compile { stage: Stage, log: String },
    /// The device rejected the source of a stage, and its diagnostic is not
    /// well-formed UTF-8.
    ShaderLogNotText { stage: Stage },
    /// The device could not link the two stages; `log` is its diagnostic.
    Link { log: String },
    /// The device could not link the two stages, and its diagnostic is not
    /// well-formed UTF-8.
    ProgramLogNotText,
    /// A call was answered with a reply of the wrong kind.
    UnexpectedReply,
}

/// A `Failure` with its text as a sequence of characters.
pub enum FailureView {
    WindowingInit,
    WindowCreation,
    SourceOpen { stage: Stage },
    SourceRead { stage: Stage },
    Compile { stage: Stage, log: Seq<char> },
    ShaderLogNotText { stage: Stage },
    Link { log: Seq<char> },
    ProgramLogNotText,
    UnexpectedReply,
}

impl View for Failure {
    type V = FailureView;

    open spec fn view(&self) -> FailureView {
        match self {
            Failure::WindowingInit => FailureView::WindowingInit,
            Failure::WindowCreation => FailureView::WindowCreation,
            Failure::SourceOpen { stage } => FailureView::SourceOpen { stage: *stage },
            Failure::SourceRead { stage } => FailureView::SourceRead { stage: *stage },
            Failure::Compile { stage, log } => FailureView::Compile { stage: *stage, log: log@ },
            Failure::ShaderLogNotText { stage } => FailureView::ShaderLogNotText { stage: *stage },
            Failure::Link { log } => FailureView::Link { log: log@ },
            Failure::ProgramLogNotText => FailureView::ProgramLogNotText,
            Failure::UnexpectedReply => FailureView::UnexpectedReply,
        }
    }
}

impl FailureView {
    /// The text to report. For a rejected compile or link it is the
    /// device's diagnostic, unchanged.
    pub open spec fn message(self) -> Seq<char> {
        match self {
            FailureView::WindowingInit => "Failed to initialize GLFW."@,
            FailureView::WindowCreation => "Failed to create GLFW window."@,
            FailureView::SourceOpen { .. } => "Failed to open shader file"@,
            FailureView::SourceRead { .. } => "Failed to read shader file"@,
            FailureView::Compile { log, .. } => log,
            FailureView::ShaderLogNotText { .. } => "ShaderInfoLog not valid utf8"@,
            FailureView::Link { log } => log,
            FailureView::ProgramLogNotText => "ProgramInfoLog not valid utf8"@,
            FailureView::UnexpectedReply => "Unexpected reply to a device call"@,
        }
    }
}

impl Failure {
    /// The text to report for this failure.
    pub fn message(&self) -> (text: String)
        ensures
            text@ == self@.message(),
    {
        match self {
            Failure::WindowingInit => "Failed to initialize GLFW.".to_owned(),
            Failure::WindowCreation => "Failed to create GLFW window.".to_owned(),
            Failure::SourceOpen { .. } => "Failed to open shader file".to_owned(),
            Failure::SourceRead { .. } => "Failed to read shader file".to_owned(),
            Failure::Compile { log, .. } => log.clone(),
            Failure::ShaderLogNotText { .. } => "ShaderInfoLog not valid utf8".to_owned(),
            Failure::Link { log } => log.clone(),
            Failure::ProgramLogNotText => "ProgramInfoLog not valid utf8".to_owned(),
            Failure::UnexpectedReply => "Unexpected reply to a device call".to_owned(),
        }
    }
}

} // verus!
