use vstd::prelude::*;

verus! {

/// The kind of GPU object whose allocation failed.
#[derive(Clone, Copy, Debug, PartialEq, Eq, Structural)]
pub enum ResourceKind {
    Framebuffer,
    Texture,
    Buffer,
    VertexArray,
    Shader,
    Program,
}

/// A fatal failure raised while building a simulation.
///
/// Every variant aborts the initialization or reset attempt that raised it;
/// none of them is raised by normal per-frame stepping.
#[derive(Debug)]
pub enum SimError {
    /// A GPU object could not be allocated.
    ResourceCreation(ResourceKind),
    /// The framebuffer completeness check failed after attaching the state
    /// texture; carries the raw status code for diagnostics.
    FramebufferIncomplete(u32),
    /// The rule's shader stage failed to compile; carries the verbatim
    /// compiler log.
    ShaderCompile(String),
    /// The compiled stages failed to link; carries the verbatim linker log.
    ProgramLink(String),
}

/// A non-fatal GPU error code observed at the end of a tick.  It is logged
/// by the host shell and the simulation continues on the next frame.
#[derive(Clone, Copy, Debug, PartialEq, Eq, Structural)]
pub struct GpuRuntimeError {
    pub code: u32,
}

/// The GPU error code that means no error was raised.
pub const GL_NO_ERROR: u32 = 0;

/// Classifies the error code polled from the GPU after a tick: any code other
/// than `GL_NO_ERROR` is a transient runtime error, to be logged and ignored.
pub fn gpu_error_after_tick(code: u32) -> (r: Option<GpuRuntimeError>)
    ensures
        r is Some <==> code != GL_NO_ERROR,
        code != GL_NO_ERROR ==> (r matches Some(e) && e.code == code),
{
    if code == GL_NO_ERROR {
        None
    } else {
        Some(GpuRuntimeError { code })
    }
}

} // verus!
