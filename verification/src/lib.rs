//! Lifecycle of GPU shader objects on a single-thread-affine graphics
//! context.
//!
//! The creation protocol — stage check, capability selection, object
//! creation, source upload, locked compilation, status query and diagnostic
//! extraction — is a verified state machine ([`protocol`]). Each transition
//! decides what the owning thread must ask of the native driver next; the
//! caller performs that call and feeds the answer back in. A scripted driver
//! double ([`driver`]) exercises the whole protocol without a live context,
//! and [`shader::build_shader`] runs it end to end with a proved outcome
//! classification. The native calls themselves, the owning-thread executor
//! and the process-wide compilation lock live outside this crate.

pub mod version;
pub mod handle;
pub mod context;
pub mod error;
pub mod protocol;
pub mod oneshot;
pub mod driver;
pub mod shader;
