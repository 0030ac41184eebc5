use glshader::context::{CapabilityPath, ContextCaps};
use glshader::handle::Handle;
use glshader::version::GlVersion;

fn caps(major: u32, minor: u32, es: bool, arb: bool) -> ContextCaps {
    ContextCaps {
        version: GlVersion(major, minor),
        opengl_es: es,
        gl_arb_shader_objects: arb,
    }
}

#[test]
fn version_order_is_lexicographic() {
    assert!(GlVersion(3, 3).ge(&GlVersion(2, 0)));
    assert!(GlVersion(2, 0).ge(&GlVersion(2, 0)));
    assert!(GlVersion(2, 1).ge(&GlVersion(2, 0)));
    assert!(!GlVersion(1, 5).ge(&GlVersion(2, 0)));
    assert!(!GlVersion(2, 1).ge(&GlVersion(3, 0)));
}

#[test]
fn core_path_selected_at_modern_version() {
    let c = caps(3, 3, false, false);
    assert!(c.is_wf());
    assert!(c.has_core_path());
    assert_eq!(c.selected_path(), CapabilityPath::Core);
}

#[test]
fn core_path_preferred_even_with_extension() {
    let c = caps(2, 0, false, true);
    assert_eq!(c.selected_path(), CapabilityPath::Core);
}

#[test]
fn legacy_path_selected_below_threshold_with_extension() {
    let c = caps(1, 5, false, true);
    assert!(c.is_wf());
    assert!(!c.has_core_path());
    assert_eq!(c.selected_path(), CapabilityPath::LegacyExtension);
}

#[test]
fn context_without_either_path_is_not_well_formed() {
    let c = caps(1, 5, false, false);
    assert!(!c.is_wf());
}

#[test]
fn null_sentinels_of_both_variants_report_invalid() {
    assert!(Handle::Id(0).is_null());
    assert!(Handle::Handle(0).is_null());
    assert!(!Handle::Id(7).is_null());
    assert!(!Handle::Handle(3).is_null());
}

#[test]
fn handle_capability_preconditions_follow_the_variant() {
    let modern = caps(3, 3, false, false);
    assert!(modern.supports_handle(Handle::Id(5)));
    assert!(!modern.supports_handle(Handle::Handle(5)));

    let legacy = caps(1, 5, false, true);
    assert!(!legacy.supports_handle(Handle::Id(5)));
    assert!(legacy.supports_handle(Handle::Handle(5)));
}
