use std::cell::RefCell;
use std::rc::Rc;

use glshader::context::ContextCaps;
use glshader::driver::SimDriver;
use glshader::oneshot::OneShot;
use glshader::protocol::VERTEX_SHADER;
use glshader::shader::{build_shader, DeletionAction, Shader};
use glshader::version::GlVersion;

fn caps(major: u32, minor: u32, es: bool, arb: bool) -> ContextCaps {
    ContextCaps {
        version: GlVersion(major, minor),
        opengl_es: es,
        gl_arb_shader_objects: arb,
    }
}

/// A scope-owned shader, as an embedder would hold one: dropping it submits
/// the deletion unit of work, exactly once, without blocking.
struct ScopedShader {
    caps: ContextCaps,
    shader: Option<Shader>,
    submissions: Rc<RefCell<Vec<DeletionAction>>>,
}

impl Drop for ScopedShader {
    fn drop(&mut self) {
        if let Some(sh) = self.shader.take() {
            if !self.caps.supports_handle(sh.get_id()) {
                panic!("handle outlived its capability preconditions");
            }
            self.submissions.borrow_mut().push(sh.teardown(&self.caps));
        }
    }
}

#[test]
fn teardown_uses_the_core_delete_call_for_core_handles() {
    let c = caps(3, 3, false, false);
    let mut d = SimDriver::new(7, true, String::new());
    let shader = build_shader(&c, VERTEX_SHADER, "void main() {}", &mut d).unwrap();
    assert_eq!(shader.teardown(&c), DeletionAction::DeleteShader(7));
}

#[test]
fn teardown_uses_the_legacy_delete_call_for_extension_handles() {
    let c = caps(1, 5, false, true);
    let mut d = SimDriver::new(9, true, String::new());
    let shader = build_shader(&c, VERTEX_SHADER, "void main() {}", &mut d).unwrap();
    assert_eq!(shader.teardown(&c), DeletionAction::DeleteObject(9));
}

#[test]
fn dropping_a_resource_submits_exactly_one_deletion_with_its_handle() {
    let c = caps(3, 3, false, false);
    let submissions: Rc<RefCell<Vec<DeletionAction>>> = Rc::new(RefCell::new(Vec::new()));
    let mut d = SimDriver::new(7, true, String::new());
    let shader = build_shader(&c, VERTEX_SHADER, "void main() {}", &mut d).unwrap();
    {
        let _owned = ScopedShader {
            caps: c,
            shader: Some(shader),
            submissions: submissions.clone(),
        };
        assert_eq!(submissions.borrow().len(), 0);
    }
    assert_eq!(*submissions.borrow(), vec![DeletionAction::DeleteShader(7)]);
}

#[test]
fn one_shot_slot_delivers_the_single_value() {
    let mut slot: OneShot<u32> = OneShot::new();
    slot.send(42);
    assert_eq!(slot.take(), 42);
}
