//! What ends a session, or keeps a renderer from being built.

use vstd::prelude::*;

verus! {

/// Why no pipeline could be built. Each variant carries the compiler's
/// words.
#[derive(Debug)]
pub enum ShaderError {
    /// The vertex shader did not compile; there is nothing to fall back on.
    Vertex(String),
    /// Neither the given fragment shader nor the bundled one compiled.
    Fallback(String),
}

/// Why a session ended in failure.
#[derive(Debug)]
pub enum LockError {
    /// The compositor has no session lock to grant.
    ProtocolUnsupported,
    /// No device could be had for an output.
    DeviceInitFailed(String),
    /// The vertex shader did not compile.
    VertexCompileFailed(String),
    /// The bundled fragment shader did not compile either.
    FallbackCompileFailed(String),
}

/// The session's error for a shader error.
pub open spec fn lock_error_of(e: ShaderError) -> LockError {
    match e {
        ShaderError::Vertex(words) => LockError::VertexCompileFailed(words),
        ShaderError::Fallback(words) => LockError::FallbackCompileFailed(words),
    }
}

impl LockError {
    /// Turns a shader error into the session's.
    pub fn from_shader(e: ShaderError) -> (r: LockError)
        ensures
            r == lock_error_of(e),
    {
        match e {
            ShaderError::Vertex(words) => LockError::VertexCompileFailed(words),
            ShaderError::Fallback(words) => LockError::FallbackCompileFailed(words),
        }
    }
}

} // verus!
