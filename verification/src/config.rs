//! The fixed settings of the window, of its graphics context and of the
//! shader sources.

use crate::handles::Stage;
use vstd::prelude::*;

verus! {

/// Width of the window, in screen coordinates.
pub const WINDOW_WIDTH: u32 = 800;

/// Height of the window, in screen coordinates.
pub const WINDOW_HEIGHT: u32 = 600;

/// Major version of the graphics API that the context must offer.
pub const CONTEXT_MAJOR: u32 = 3;

/// Minor version of the graphics API that the context must offer.
pub const CONTEXT_MINOR: u32 = 3;

/// The title of the window.
pub open spec fn window_title_text() -> Seq<char> {
    "OpenGL Triangle"@
}

/// The path of the file that holds the source of a stage, relative to the
/// working directory.
pub open spec fn source_path_text(stage: Stage) -> Seq<char> {
    match stage {
        Stage::Vertex => "shaders/vertex_shader.glsl"@,
        Stage::Fragment => "shaders/fragment_shader.glsl"@,
    }
}

/// Returns the title of the window.
pub fn window_title() -> (title: &'static str)
    ensures
        title@ == window_title_text(),
{
    "OpenGL Triangle"
}

/// Returns the path of the source file of a stage.
pub fn source_path(stage: Stage) -> (path: &'static str)
    ensures
        path@ == source_path_text(stage),
{
    match stage {
        Stage::Vertex => "shaders/vertex_shader.glsl",
        Stage::Fragment => "shaders/fragment_shader.glsl",
    }
}

} // verus!
