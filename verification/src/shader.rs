//! The shader resource and a complete, verified run of the creation
//! protocol against the scripted driver.

use vstd::prelude::*;
use vstd::utf8::encode_utf8;
use crate::context::ContextCaps;
use crate::driver::SimDriver;
use crate::error::ProgramCreationError;
use crate::handle::Handle;
use crate::oneshot::OneShot;
use crate::protocol::{
    handle_on_path, stage_rejected, step, CreationState, DriverAction, DriverEvent,
};

verus! {

/// An owned shader object: the successful outcome of the creation
/// protocol. It is never copied; moving it transfers responsibility for
/// destruction, and teardown consumes it, so destruction happens once.
pub struct Shader {
    id: Handle,
}

/// The native delete call that teardown submits, fire and forget, to the
/// context's owning thread.
#[derive(Clone, Copy, PartialEq, Eq, Structural, Debug)]
pub enum DeletionAction {
    /// Delete through the core object model.
    DeleteShader(u32),
    /// Delete through the legacy extension.
    DeleteObject(u64),
}

/// The deletion call a handle's active variant requires.
pub open spec fn spec_deletion_action(h: Handle) -> DeletionAction {
    match h {
        Handle::Id(id) => DeletionAction::DeleteShader(id),
        Handle::Handle(hh) => DeletionAction::DeleteObject(hh),
    }
}

impl Shader {
    /// The identifier this shader owns.
    pub closed spec fn spec_id(self) -> Handle {
        self.id
    }

    /// Read-only access to the underlying handle, for the downstream
    /// linking step.
    pub fn get_id(&self) -> (h: Handle)
        ensures
            h == self.spec_id(),
    {
        self.id
    }

    /// The deletion unit of work teardown submits for this shader: the
    /// delete call of the path that created the handle, aimed at exactly
    /// this handle. Consuming the resource makes destruction a one-time
    /// event; the capability precondition must still hold, since a handle
    /// must never outlive it.
    pub fn teardown(self, caps: &ContextCaps) -> (a: DeletionAction)
        requires
            caps.spec_supports_handle(self.spec_id()),
        ensures
            a == spec_deletion_action(self.spec_id()),
    {
        match self.id {
            Handle::Id(id) => DeletionAction::DeleteShader(id),
            Handle::Handle(hh) => DeletionAction::DeleteObject(hh),
        }
    }
}

/// Wrap an outcome received over the one-shot channel into an owned
/// resource: a reported handle becomes a [`Shader`], a reported failure is
/// surfaced verbatim.
pub fn wrap_outcome(out: Result<Handle, ProgramCreationError>) -> (r: Result<
    Shader,
    ProgramCreationError,
>)
    ensures
        out matches Ok(h) ==> r matches Ok(s) && s.spec_id() == h,
        out matches Err(e) ==> r matches Err(e2) && e2 == e,
{
    match out {
        Ok(h) => Ok(Shader { id: h }),
        Err(e) => Err(e),
    }
}

/// What must hold, between two steps of a run against the scripted driver,
/// of the state, the pending event and the driver's counters. `d0` is the
/// driver as the run found it.
spec fn run_inv(
    caps: ContextCaps,
    shader_type: u32,
    source: Seq<char>,
    d0: SimDriver,
    d: SimDriver,
    state: CreationState,
    event: DriverEvent,
) -> bool {
    let h = d0.spec_created_handle(caps.spec_selected_path());
    &&& state.spec_accepts(event)
    &&& match state {
        CreationState::Starting => d == d0 && event == DriverEvent::Begin,
        CreationState::Creating(p) => {
            &&& !stage_rejected(caps, shader_type)
            &&& p == caps.spec_selected_path()
            &&& event == DriverEvent::ObjectCreated(h)
            &&& d == (SimDriver { create_calls: (d0.create_calls + 1) as u64, ..d0 })
        },
        CreationState::SettingSource(hh) => {
            &&& !stage_rejected(caps, shader_type)
            &&& hh == h && !h.spec_is_null()
            &&& event == DriverEvent::SourceSet
            &&& d.attached_source@ == source
            &&& d == (SimDriver {
                create_calls: (d0.create_calls + 1) as u64,
                source_calls: (d0.source_calls + 1) as u64,
                attached_source: d.attached_source,
                ..d0
            })
        },
        CreationState::Compiling(hh) => {
            &&& !stage_rejected(caps, shader_type)
            &&& hh == h && !h.spec_is_null()
            &&& event == DriverEvent::Compiled
            &&& d.attached_source@ == source
            &&& d.after_guarded_compile(d0)
            &&& d == (SimDriver {
                create_calls: (d0.create_calls + 1) as u64,
                source_calls: (d0.source_calls + 1) as u64,
                compile_calls: (d0.compile_calls + 1) as u64,
                attached_source: d.attached_source,
                max_lock_depth: d.max_lock_depth,
                ..d0
            })
        },
        CreationState::CheckingStatus(hh) => {
            &&& !stage_rejected(caps, shader_type)
            &&& hh == h && !h.spec_is_null()
            &&& event == DriverEvent::CompileStatus(d0.spec_status())
            &&& d.attached_source@ == source
            &&& d.after_guarded_compile(d0)
            &&& d == (SimDriver {
                create_calls: (d0.create_calls + 1) as u64,
                source_calls: (d0.source_calls + 1) as u64,
                compile_calls: (d0.compile_calls + 1) as u64,
                query_calls: (d0.query_calls + 1) as u64,
                attached_source: d.attached_source,
                max_lock_depth: d.max_lock_depth,
                ..d0
            })
        },
        CreationState::MeasuringLog(hh) => {
            &&& !stage_rejected(caps, shader_type)
            &&& hh == h && !h.spec_is_null()
            &&& !d0.compile_ok
            &&& (event matches DriverEvent::InfoLogLength(n) && n == encode_utf8(
                d0.log@,
            ).len() as usize)
            &&& d.attached_source@ == source
            &&& d.after_guarded_compile(d0)
            &&& d == (SimDriver {
                create_calls: (d0.create_calls + 1) as u64,
                source_calls: (d0.source_calls + 1) as u64,
                compile_calls: (d0.compile_calls + 1) as u64,
                query_calls: (d0.query_calls + 2) as u64,
                attached_source: d.attached_source,
                max_lock_depth: d.max_lock_depth,
                ..d0
            })
        },
        CreationState::FetchingLog(hh, _len) => {
            &&& !stage_rejected(caps, shader_type)
            &&& hh == h && !h.spec_is_null()
            &&& !d0.compile_ok
            &&& (event matches DriverEvent::InfoLog(m) && m@ == d0.log@)
            &&& d.attached_source@ == source
            &&& d.after_guarded_compile(d0)
            &&& d == (SimDriver {
                create_calls: (d0.create_calls + 1) as u64,
                source_calls: (d0.source_calls + 1) as u64,
                compile_calls: (d0.compile_calls + 1) as u64,
                query_calls: (d0.query_calls + 3) as u64,
                attached_source: d.attached_source,
                max_lock_depth: d.max_lock_depth,
                ..d0
            })
        },
        CreationState::Done(_) => false,
    }
}

/// Build an individual shader against the scripted driver: one complete,
/// verified run of the creation protocol, outcome delivered through the
/// one-shot slot.
///
/// The outcome is classified exactly: a geometry shader on the restricted
/// profile fails before any native call; a null identifier from the create
/// call fails without a compile call; a failed compile surfaces the
/// driver's log verbatim; otherwise the caller owns a shader whose handle
/// is the non-null identifier the selected path created.
#[verifier::loop_isolation(false)]
pub fn build_shader(
    caps: &ContextCaps,
    shader_type: u32,
    source_code: &str,
    driver: &mut SimDriver,
) -> (r: Result<Shader, ProgramCreationError>)
    requires
        caps.wf(),
        old(driver).counters_have_room(3),
    ensures
        final(driver).same_script(*old(driver)),
        r is Ok <==> !stage_rejected(*caps, shader_type) && old(driver).raw_id != 0 && old(
            driver,
        ).compile_ok,
        stage_rejected(*caps, shader_type) ==> (r matches Err(
            ProgramCreationError::ShaderTypeNotSupported,
        )) && *final(driver) == *old(driver),
        !stage_rejected(*caps, shader_type) && old(driver).raw_id == 0 ==> (r matches Err(
            ProgramCreationError::ShaderTypeNotSupported,
        )) && *final(driver) == (SimDriver {
            create_calls: (old(driver).create_calls + 1) as u64,
            ..*old(driver)
        }),
        !stage_rejected(*caps, shader_type) && old(driver).raw_id != 0 ==> {
            &&& final(driver).create_calls == old(driver).create_calls + 1
            &&& final(driver).source_calls == old(driver).source_calls + 1
            &&& final(driver).compile_calls == old(driver).compile_calls + 1
            &&& final(driver).attached_source@ == source_code@
            &&& final(driver).after_guarded_compile(*old(driver))
        },
        !stage_rejected(*caps, shader_type) && old(driver).raw_id != 0 && !old(driver).compile_ok
            ==> (r matches Err(ProgramCreationError::CompilationError(m)) && m@ == old(
            driver,
        ).log@) && final(driver).query_calls == old(driver).query_calls + 3,
        !stage_rejected(*caps, shader_type) && old(driver).raw_id != 0 && old(driver).compile_ok
            ==> (r matches Ok(s) && {
            &&& s.spec_id() == old(driver).spec_created_handle(caps.spec_selected_path())
            &&& !s.spec_id().spec_is_null()
            &&& handle_on_path(s.spec_id(), caps.spec_selected_path())
            &&& caps.spec_supports_handle(s.spec_id())
        }) && final(driver).query_calls == old(driver).query_calls + 1,
{
    let ghost d0 = *driver;
    let mut outcome_slot: OneShot<Result<Handle, ProgramCreationError>> = OneShot::new();
    let mut state = CreationState::Starting;
    let mut event = DriverEvent::Begin;
    loop
        invariant
            run_inv(*caps, shader_type, source_code@, d0, *driver, state, event),
            outcome_slot is Empty,
        decreases state.rank(),
    {
        let (next, action) = step(caps, shader_type, state, event);
        state = next;
        match action {
            DriverAction::Report(out) => {
                outcome_slot.send(out);
                let out = outcome_slot.take();
                return wrap_outcome(out);
            },
            other => {
                event = driver.perform(&other, source_code);
            },
        }
    }
}

} // verus!
