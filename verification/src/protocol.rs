//! The shader-creation protocol as a state machine.
//!
//! One creation is a single unit of work on the context's owning thread.
//! Between two native calls the protocol stands in a [`CreationState`]; each
//! [`step`] consumes the driver's answer to the previous call and decides the
//! next [`DriverAction`]. The performer of the actions — the native driver,
//! or a scripted double — supplies the next [`DriverEvent`]. The transition
//! relation itself, [`spec_step`], is the protocol's specification.

use vstd::prelude::*;
use crate::context::{CapabilityPath, ContextCaps};
use crate::error::ProgramCreationError;
use crate::handle::Handle;

verus! {

/// Stage enumerant of a vertex shader, as the native API numbers it.
pub const VERTEX_SHADER: u32 = 0x8B31;

/// Stage enumerant of a fragment shader.
pub const FRAGMENT_SHADER: u32 = 0x8B30;

/// Stage enumerant of a geometry shader, the stage the restricted profile
/// rejects.
pub const GEOMETRY_SHADER: u32 = 0x8DD9;

/// What the protocol asks the performer to do next.
#[derive(PartialEq, Eq, Debug)]
pub enum DriverAction {
    /// Create a shader object for the stage through the given path.
    CreateShader(CapabilityPath, u32),
    /// Attach the caller's source text to the object, as a single fragment
    /// with no length override.
    ShaderSource(Handle),
    /// Compile the object. The performer holds the process-wide compilation
    /// lock for exactly this call and releases it when the call returns.
    CompileShader(Handle),
    /// Read the boolean compile-status parameter.
    GetCompileStatus(Handle),
    /// Read the diagnostic-log length.
    GetInfoLogLength(Handle),
    /// Retrieve the diagnostic log into a buffer of exactly the given
    /// length.
    GetInfoLog(Handle, usize),
    /// The protocol is finished: send the outcome, exactly once, over the
    /// one-shot channel back to the waiting caller.
    Report(Result<Handle, ProgramCreationError>),
}

/// What the performer answered to the previous action.
#[derive(Clone, PartialEq, Eq, Debug)]
pub enum DriverEvent {
    /// The unit of work has started running on the owning thread.
    Begin,
    /// The create call returned this handle.
    ObjectCreated(Handle),
    /// The source-setting call returned.
    SourceSet,
    /// The compile call returned.
    Compiled,
    /// The compile-status parameter; 0 means compilation failed.
    CompileStatus(i32),
    /// The reported diagnostic-log length.
    InfoLogLength(usize),
    /// The retrieved diagnostic log, decoded as UTF-8. A driver is
    /// contractually expected to emit valid text; the performer treats a
    /// decoding failure as fatal, not as an event.
    InfoLog(String),
}

/// Where one creation stands between two native calls.
#[derive(PartialEq, Eq, Debug)]
pub enum CreationState {
    /// Stage check and capability selection are still to run.
    Starting,
    /// Waiting for the create call on the selected path.
    Creating(CapabilityPath),
    /// Waiting for the source upload.
    SettingSource(Handle),
    /// Waiting for the compile call.
    Compiling(Handle),
    /// Waiting for the compile-status query.
    CheckingStatus(Handle),
    /// Compilation failed; waiting for the log-length query.
    MeasuringLog(Handle),
    /// Waiting for the log retrieval into a buffer of the given length.
    FetchingLog(Handle, usize),
    /// The outcome is decided and reported.
    Done(Result<Handle, ProgramCreationError>),
}

/// Whether a handle's active variant is the one its path creates.
pub open spec fn handle_on_path(h: Handle, p: CapabilityPath) -> bool {
    match (h, p) {
        (Handle::Id(_), CapabilityPath::Core) => true,
        (Handle::Handle(_), CapabilityPath::LegacyExtension) => true,
        _ => false,
    }
}

/// The stage check of the protocol's first step: a geometry shader is
/// rejected outright on the restricted mobile/embedded profile.
pub open spec fn stage_rejected(caps: ContextCaps, shader_type: u32) -> bool {
    shader_type == GEOMETRY_SHADER && caps.opengl_es
}

impl CreationState {
    /// Which events a state can accept: the answer must belong to the call
    /// this state is waiting on, and a created handle must carry the
    /// variant of the path it was created through. Feeding any other event
    /// is a programming-contract violation, not a reportable error.
    pub open spec fn spec_accepts(self, event: DriverEvent) -> bool {
        match (self, event) {
            (CreationState::Starting, DriverEvent::Begin) => true,
            (CreationState::Creating(p), DriverEvent::ObjectCreated(h)) => handle_on_path(h, p),
            (CreationState::SettingSource(_), DriverEvent::SourceSet) => true,
            (CreationState::Compiling(_), DriverEvent::Compiled) => true,
            (CreationState::CheckingStatus(_), DriverEvent::CompileStatus(_)) => true,
            (CreationState::MeasuringLog(_), DriverEvent::InfoLogLength(_)) => true,
            (CreationState::FetchingLog(_, _), DriverEvent::InfoLog(_)) => true,
            _ => false,
        }
    }

    /// Whether this state can accept `event`; the runtime counterpart of
    /// [`Self::spec_accepts`], for an unverified performer to test before
    /// stepping.
    pub fn accepts(&self, event: &DriverEvent) -> (r: bool)
        ensures
            r == self.spec_accepts(*event),
    {
        match (self, event) {
            (CreationState::Starting, DriverEvent::Begin) => true,
            (CreationState::Creating(p), DriverEvent::ObjectCreated(h)) => {
                match (h, p) {
                    (Handle::Id(_), CapabilityPath::Core) => true,
                    (Handle::Handle(_), CapabilityPath::LegacyExtension) => true,
                    _ => false,
                }
            },
            (CreationState::SettingSource(_), DriverEvent::SourceSet) => true,
            (CreationState::Compiling(_), DriverEvent::Compiled) => true,
            (CreationState::CheckingStatus(_), DriverEvent::CompileStatus(_)) => true,
            (CreationState::MeasuringLog(_), DriverEvent::InfoLogLength(_)) => true,
            (CreationState::FetchingLog(_, _), DriverEvent::InfoLog(_)) => true,
            _ => false,
        }
    }

    /// How many transitions a state can still take before the protocol is
    /// done; every accepted step lowers it.
    pub open spec fn rank(self) -> nat {
        match self {
            CreationState::Starting => 7,
            CreationState::Creating(_) => 6,
            CreationState::SettingSource(_) => 5,
            CreationState::Compiling(_) => 4,
            CreationState::CheckingStatus(_) => 3,
            CreationState::MeasuringLog(_) => 2,
            CreationState::FetchingLog(_, _) => 1,
            CreationState::Done(_) => 0,
        }
    }
}

/// What holds of every state the protocol can reach on a well-formed
/// context: a handle past creation is non-null and carries the variant of
/// the selected path, and a decided success does too.
pub open spec fn state_inv(caps: ContextCaps, state: CreationState) -> bool {
    match state {
        CreationState::Starting => true,
        CreationState::Creating(p) => p == caps.spec_selected_path(),
        CreationState::SettingSource(h) => reached_handle_ok(caps, h),
        CreationState::Compiling(h) => reached_handle_ok(caps, h),
        CreationState::CheckingStatus(h) => reached_handle_ok(caps, h),
        CreationState::MeasuringLog(h) => reached_handle_ok(caps, h),
        CreationState::FetchingLog(h, _) => reached_handle_ok(caps, h),
        CreationState::Done(out) => match out {
            Ok(h) => reached_handle_ok(caps, h),
            Err(_) => true,
        },
    }
}

/// A handle the protocol carries past its creation step: non-null, created
/// through the selected path, and meeting that path's capability
/// precondition.
pub open spec fn reached_handle_ok(caps: ContextCaps, h: Handle) -> bool {
    &&& !h.spec_is_null()
    &&& handle_on_path(h, caps.spec_selected_path())
    &&& caps.spec_supports_handle(h)
}

/// The transition relation of the creation protocol: from a state and the
/// driver's answer to the pending call, the next state and the next action.
pub open spec fn spec_step(
    caps: ContextCaps,
    shader_type: u32,
    state: CreationState,
    event: DriverEvent,
) -> (CreationState, DriverAction) {
    match (state, event) {
        (CreationState::Starting, DriverEvent::Begin) => {
            if stage_rejected(caps, shader_type) {
                let out = Err(ProgramCreationError::ShaderTypeNotSupported);
                (CreationState::Done(out), DriverAction::Report(out))
            } else {
                let p = caps.spec_selected_path();
                (CreationState::Creating(p), DriverAction::CreateShader(p, shader_type))
            }
        },
        (CreationState::Creating(_), DriverEvent::ObjectCreated(h)) => {
            if h.spec_is_null() {
                let out = Err(ProgramCreationError::ShaderTypeNotSupported);
                (CreationState::Done(out), DriverAction::Report(out))
            } else {
                (CreationState::SettingSource(h), DriverAction::ShaderSource(h))
            }
        },
        (CreationState::SettingSource(h), DriverEvent::SourceSet) => {
            (CreationState::Compiling(h), DriverAction::CompileShader(h))
        },
        (CreationState::Compiling(h), DriverEvent::Compiled) => {
            (CreationState::CheckingStatus(h), DriverAction::GetCompileStatus(h))
        },
        (CreationState::CheckingStatus(h), DriverEvent::CompileStatus(status)) => {
            if status == 0 {
                (CreationState::MeasuringLog(h), DriverAction::GetInfoLogLength(h))
            } else {
                (CreationState::Done(Ok(h)), DriverAction::Report(Ok(h)))
            }
        },
        (CreationState::MeasuringLog(h), DriverEvent::InfoLogLength(len)) => {
            (CreationState::FetchingLog(h, len), DriverAction::GetInfoLog(h, len))
        },
        (CreationState::FetchingLog(_, _), DriverEvent::InfoLog(msg)) => {
            let out = Err(ProgramCreationError::CompilationError(msg));
            (CreationState::Done(out), DriverAction::Report(out))
        },
        _ => (state, DriverAction::Report(Err(ProgramCreationError::ShaderTypeNotSupported))),
    }
}

/// Take one step of the creation protocol.
pub fn step(
    caps: &ContextCaps,
    shader_type: u32,
    state: CreationState,
    event: DriverEvent,
) -> (r: (CreationState, DriverAction))
    requires
        caps.wf(),
        state.spec_accepts(event),
    ensures
        r == spec_step(*caps, shader_type, state, event),
{
    match (state, event) {
        (CreationState::Starting, DriverEvent::Begin) => {
            if shader_type == GEOMETRY_SHADER && caps.opengl_es {
                (
                    CreationState::Done(Err(ProgramCreationError::ShaderTypeNotSupported)),
                    DriverAction::Report(Err(ProgramCreationError::ShaderTypeNotSupported)),
                )
            } else {
                let p = caps.selected_path();
                (CreationState::Creating(p), DriverAction::CreateShader(p, shader_type))
            }
        },
        (CreationState::Creating(_), DriverEvent::ObjectCreated(h)) => {
            if h.is_null() {
                (
                    CreationState::Done(Err(ProgramCreationError::ShaderTypeNotSupported)),
                    DriverAction::Report(Err(ProgramCreationError::ShaderTypeNotSupported)),
                )
            } else {
                (CreationState::SettingSource(h), DriverAction::ShaderSource(h))
            }
        },
        (CreationState::SettingSource(h), DriverEvent::SourceSet) => {
            (CreationState::Compiling(h), DriverAction::CompileShader(h))
        },
        (CreationState::Compiling(h), DriverEvent::Compiled) => {
            (CreationState::CheckingStatus(h), DriverAction::GetCompileStatus(h))
        },
        (CreationState::CheckingStatus(h), DriverEvent::CompileStatus(status)) => {
            if status == 0 {
                (CreationState::MeasuringLog(h), DriverAction::GetInfoLogLength(h))
            } else {
                (CreationState::Done(Ok(h)), DriverAction::Report(Ok(h)))
            }
        },
        (CreationState::MeasuringLog(h), DriverEvent::InfoLogLength(len)) => {
            (CreationState::FetchingLog(h, len), DriverAction::GetInfoLog(h, len))
        },
        (CreationState::FetchingLog(_, _), DriverEvent::InfoLog(msg)) => {
            (
                CreationState::Done(Err(ProgramCreationError::CompilationError(msg.clone()))),
                DriverAction::Report(Err(ProgramCreationError::CompilationError(msg))),
            )
        },
        _ => vstd::pervasive::unreached(),
    }
}

/// Every accepted step keeps the reachable-state invariant and lowers the
/// state's rank, so a run of the protocol always terminates.
pub proof fn lemma_step_preserves_inv(
    caps: ContextCaps,
    shader_type: u32,
    state: CreationState,
    event: DriverEvent,
)
    requires
        caps.wf(),
        state.spec_accepts(event),
        state_inv(caps, state),
    ensures
        state_inv(caps, spec_step(caps, shader_type, state, event).0),
        spec_step(caps, shader_type, state, event).0.rank() < state.rank(),
{
    let (next, _) = spec_step(caps, shader_type, state, event);
    match (state, event) {
        (CreationState::Creating(p), DriverEvent::ObjectCreated(h)) => {
            if !h.spec_is_null() {
                assert(handle_on_path(h, caps.spec_selected_path()));
                lemma_on_path_supported(caps, h);
            }
        },
        _ => {},
    }
}

/// Geometry-stage rejection: against a context restricted to the
/// mobile/embedded profile, a geometry shader is refused in the very first
/// transition — the protocol is done, reports `ShaderTypeNotSupported`, and
/// never asks the driver to create or compile anything.
pub proof fn lemma_geometry_stage_rejected(caps: ContextCaps, shader_type: u32)
    requires
        shader_type == GEOMETRY_SHADER,
        caps.opengl_es,
    ensures
        spec_step(caps, shader_type, CreationState::Starting, DriverEvent::Begin) == (
            CreationState::Done(Err(ProgramCreationError::ShaderTypeNotSupported)),
            DriverAction::Report(Err(ProgramCreationError::ShaderTypeNotSupported)),
        ),
{
}

/// Null-handle rejection: whichever path created it, a handle equal to that
/// path's null sentinel ends the protocol at once with
/// `ShaderTypeNotSupported` — the same failure the stage check reports, by
/// design.
pub proof fn lemma_null_handle_rejected(
    caps: ContextCaps,
    shader_type: u32,
    p: CapabilityPath,
    h: Handle,
)
    requires
        h.spec_is_null(),
    ensures
        spec_step(caps, shader_type, CreationState::Creating(p), DriverEvent::ObjectCreated(h))
            == (
            CreationState::Done(Err(ProgramCreationError::ShaderTypeNotSupported)),
            DriverAction::Report(Err(ProgramCreationError::ShaderTypeNotSupported)),
        ),
{
}

/// A handle created through the selected path of a well-formed context
/// meets that variant's capability precondition.
pub proof fn lemma_on_path_supported(caps: ContextCaps, h: Handle)
    requires
        caps.wf(),
        handle_on_path(h, caps.spec_selected_path()),
    ensures
        caps.spec_supports_handle(h),
{
}

} // verus!
