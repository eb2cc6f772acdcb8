use vstd::prelude::*;

verus! {

/// The two shader stages of the program pipeline.
#[derive(Clone, Copy, Debug, PartialEq, Eq, Structural)]
pub enum Stage {
    Vertex,
    Fragment,
}

/// Everything that can go wrong in the rendering core.
///
/// - `CompileFailed`: a shader source was rejected by the compiler; `log`
///   carries the driver's diagnostic text, or a fixed fallback when the
///   driver reported none.
/// - `LinkFailed`: the compiled stages were rejected at link time.
/// - `BufferCreationFailed`: the GPU buffer allocation returned no handle.
/// - `BorrowConflict`: the particle store was accessed while already held;
///   recoverable once the conflicting access is released.
/// - `ContextUnavailable`: the rendering context itself could not be
///   acquired; propagated unchanged from the bootstrap layer.
/// - `AttributeUnavailable`: the vertex-position attribute could not be
///   resolved from the program by name.
#[derive(Debug)]
pub enum DrawError {
    CompileFailed { stage: Stage, log: String },
    LinkFailed { log: String },
    BufferCreationFailed,
    BorrowConflict,
    ContextUnavailable,
    AttributeUnavailable,
}

} // verus!
