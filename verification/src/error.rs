//! The closed set of failures shader creation reports to its caller.

use vstd::prelude::*;

verus! {

/// A classified creation failure. Capability-precondition violations are
/// not here: those are programming-contract violations, fatal by design,
/// never reported through this taxonomy.
#[derive(Clone, PartialEq, Eq, Debug)]
pub enum ProgramCreationError {
    /// The requested stage cannot be created on this context: either the
    /// stage is unsupported on this profile, or the driver returned a null
    /// object. The two causes are indistinguishable to the caller by
    /// design.
    ShaderTypeNotSupported,
    /// The object was created but compilation failed; the payload is the
    /// driver's diagnostic log, unmodified.
    CompilationError(String),
}

} // verus!
