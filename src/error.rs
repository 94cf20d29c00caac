//! Failures of pipeline construction and of a frame.

use vstd::prelude::*;

verus! {

/// Why a pipeline could not be built, or a frame could not be shown.
#[derive(Clone, Copy, Debug, PartialEq, Eq, Structural)]
pub enum PipelineError {
    /// A texture or buffer is empty or larger than the device allows.
    ResourceLimitExceeded,
    /// A shader program failed to compile.
    ShaderCompileError,
    /// A binding set, or a shader's declared bindings, disagree with the
    /// stage's binding layout.
    BindingMismatch,
    /// The presentation surface went away; surface-dependent objects must be
    /// rebuilt.
    SurfaceLost,
}

/// What the application does after an error.
#[derive(Clone, Copy, Debug, PartialEq, Eq, Structural)]
pub enum Recovery {
    /// Rebuild the surface-dependent objects and go on with the next frame.
    RebuildSurface,
    /// Stop: the pipeline cannot be built.
    Abort,
}

/// A lost surface is recovered by rebuilding what depends on it; every
/// construction error ends startup.
pub fn recovery_for(e: PipelineError) -> (r: Recovery)
    ensures
        r == (if e == PipelineError::SurfaceLost { Recovery::RebuildSurface } else { Recovery::Abort }),
{
    match e {
        PipelineError::SurfaceLost => Recovery::RebuildSurface,
        _ => Recovery::Abort,
    }
}

} // verus!
