use glshader::context::{CapabilityPath, ContextCaps};
use glshader::driver::SimDriver;
use glshader::error::ProgramCreationError;
use glshader::handle::Handle;
use glshader::protocol::{
    step, CreationState, DriverAction, DriverEvent, FRAGMENT_SHADER, GEOMETRY_SHADER,
    VERTEX_SHADER,
};
use glshader::shader::build_shader;
use glshader::version::GlVersion;

fn caps(major: u32, minor: u32, es: bool, arb: bool) -> ContextCaps {
    ContextCaps {
        version: GlVersion(major, minor),
        opengl_es: es,
        gl_arb_shader_objects: arb,
    }
}

#[test]
fn first_step_selects_the_core_path() {
    let c = caps(3, 3, false, false);
    let (state, action) = step(&c, VERTEX_SHADER, CreationState::Starting, DriverEvent::Begin);
    assert_eq!(state, CreationState::Creating(CapabilityPath::Core));
    assert_eq!(action, DriverAction::CreateShader(CapabilityPath::Core, VERTEX_SHADER));
}

#[test]
fn first_step_rejects_geometry_on_restricted_profile() {
    let c = caps(3, 0, true, false);
    let (state, action) = step(&c, GEOMETRY_SHADER, CreationState::Starting, DriverEvent::Begin);
    assert_eq!(
        state,
        CreationState::Done(Err(ProgramCreationError::ShaderTypeNotSupported))
    );
    assert_eq!(
        action,
        DriverAction::Report(Err(ProgramCreationError::ShaderTypeNotSupported))
    );
}

#[test]
fn core_round_trip_returns_nonzero_core_handle() {
    let c = caps(3, 3, false, false);
    let mut d = SimDriver::new(7, true, String::new());
    let source = "void main() { gl_Position = vec4(0.0); }";
    let shader = build_shader(&c, VERTEX_SHADER, source, &mut d).unwrap();
    assert_eq!(shader.get_id(), Handle::Id(7));
    assert!(!shader.get_id().is_null());
    assert_eq!(d.create_calls, 1);
    assert_eq!(d.source_calls, 1);
    assert_eq!(d.compile_calls, 1);
    assert_eq!(d.query_calls, 1);
    assert_eq!(d.attached_source, source);
}

#[test]
fn legacy_round_trip_returns_extension_handle() {
    let c = caps(1, 5, false, true);
    let mut d = SimDriver::new(9, true, String::new());
    let shader = build_shader(&c, FRAGMENT_SHADER, "void main() {}", &mut d).unwrap();
    assert_eq!(shader.get_id(), Handle::Handle(9));
    assert_eq!(d.create_calls, 1);
    assert_eq!(d.compile_calls, 1);
}

#[test]
fn geometry_on_restricted_profile_fails_before_any_native_call() {
    let c = caps(3, 0, true, false);
    let mut d = SimDriver::new(7, true, String::new());
    let r = build_shader(&c, GEOMETRY_SHADER, "void main() {}", &mut d);
    assert_eq!(r.err().unwrap(), ProgramCreationError::ShaderTypeNotSupported);
    assert_eq!(d.create_calls, 0);
    assert_eq!(d.compile_calls, 0);
    assert_eq!(d.source_calls, 0);
    assert_eq!(d.query_calls, 0);
}

#[test]
fn geometry_is_allowed_off_the_restricted_profile() {
    let c = caps(3, 3, false, false);
    let mut d = SimDriver::new(4, true, String::new());
    let shader = build_shader(&c, GEOMETRY_SHADER, "void main() {}", &mut d).unwrap();
    assert_eq!(shader.get_id(), Handle::Id(4));
}

#[test]
fn null_core_identifier_is_reported_as_unsupported() {
    let c = caps(3, 3, false, false);
    let mut d = SimDriver::new(0, true, String::new());
    let r = build_shader(&c, VERTEX_SHADER, "void main() {}", &mut d);
    assert_eq!(r.err().unwrap(), ProgramCreationError::ShaderTypeNotSupported);
    assert_eq!(d.create_calls, 1);
    assert_eq!(d.compile_calls, 0);
}

#[test]
fn null_legacy_handle_is_reported_as_unsupported() {
    let c = caps(1, 5, false, true);
    let mut d = SimDriver::new(0, true, String::new());
    let r = build_shader(&c, VERTEX_SHADER, "void main() {}", &mut d);
    assert_eq!(r.err().unwrap(), ProgramCreationError::ShaderTypeNotSupported);
    assert_eq!(d.create_calls, 1);
    assert_eq!(d.compile_calls, 0);
}

#[test]
fn compilation_failure_surfaces_the_exact_log() {
    let c = caps(3, 3, false, false);
    let log = "ERROR: 0:1: 'vec5' : undeclared identifier";
    let mut d = SimDriver::new(7, false, String::from(log));
    let r = build_shader(&c, VERTEX_SHADER, "void main() { vec5 x; }", &mut d);
    assert_eq!(
        r.err().unwrap(),
        ProgramCreationError::CompilationError(String::from(log))
    );
    assert_eq!(d.compile_calls, 1);
    assert_eq!(d.query_calls, 3);
}

#[test]
fn compile_calls_are_never_concurrent_across_many_creations() {
    let c = caps(3, 3, false, false);
    let mut d = SimDriver::new(7, true, String::new());
    let n: u64 = 5;
    let mut i: u64 = 0;
    while i < n {
        let shader = build_shader(&c, VERTEX_SHADER, "void main() {}", &mut d).unwrap();
        assert_eq!(shader.get_id(), Handle::Id(7));
        i += 1;
    }
    assert_eq!(d.compile_calls, n);
    assert_eq!(d.lock_depth, 0);
    assert_eq!(d.max_lock_depth, 1);
}
