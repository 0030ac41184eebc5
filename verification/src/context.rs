//! Capability state of a graphics context and selection between the two
//! mutually exclusive call conventions.

use vstd::prelude::*;
use crate::handle::Handle;
use crate::version::GlVersion;

verus! {

/// Lowest reported version at which the core object model is usable.
pub const CORE_PATH_MAJOR: u32 = 2;

/// Minor part of the lowest core-path version.
pub const CORE_PATH_MINOR: u32 = 0;

/// The capability state of a context, as a unit of work running on the
/// owning thread can read it.
#[derive(Clone, Copy, PartialEq, Eq, Structural, Debug)]
pub struct ContextCaps {
    /// The API version the context reports.
    pub version: GlVersion,
    /// Whether the context is restricted to the mobile/embedded profile.
    pub opengl_es: bool,
    /// Whether the legacy shader-object extension is advertised.
    pub gl_arb_shader_objects: bool,
}

/// One of the two mutually exclusive call conventions for shader
/// operations.
#[derive(Clone, Copy, PartialEq, Eq, Structural, Debug)]
pub enum CapabilityPath {
    /// The modern core object model.
    Core,
    /// The legacy extension-based fallback.
    LegacyExtension,
}

impl ContextCaps {
    /// The core path is usable when the reported version reaches the
    /// minimum threshold.
    pub open spec fn core_usable(self) -> bool {
        self.version.at_least(GlVersion(CORE_PATH_MAJOR, CORE_PATH_MINOR))
    }

    /// The legacy path is usable when the core path is not and the
    /// extension flag is set: creation prefers the core path.
    pub open spec fn legacy_usable(self) -> bool {
        !self.core_usable() && self.gl_arb_shader_objects
    }

    /// A context always supports at least one path; reaching creation with
    /// neither is an invariant violation, not an error the protocol reports.
    pub open spec fn wf(self) -> bool {
        self.core_usable() || self.gl_arb_shader_objects
    }

    /// The path creation selects on this context.
    pub open spec fn spec_selected_path(self) -> CapabilityPath {
        if self.core_usable() {
            CapabilityPath::Core
        } else {
            CapabilityPath::LegacyExtension
        }
    }

    /// The capability precondition of a handle: the path that created its
    /// active variant must be usable on this context before any native call
    /// that dereferences it.
    pub open spec fn spec_supports_handle(self, h: Handle) -> bool {
        match h {
            Handle::Id(_) => self.core_usable(),
            Handle::Handle(_) => self.gl_arb_shader_objects,
        }
    }

    /// Whether the context meets the minimum core-path version.
    pub fn has_core_path(&self) -> (r: bool)
        ensures
            r == self.core_usable(),
    {
        self.version.ge(&GlVersion(CORE_PATH_MAJOR, CORE_PATH_MINOR))
    }

    /// Whether the context is well formed: at least one path is supported.
    pub fn is_wf(&self) -> (r: bool)
        ensures
            r == self.wf(),
    {
        self.has_core_path() || self.gl_arb_shader_objects
    }

    /// Select the capability path for this context.
    pub fn selected_path(&self) -> (p: CapabilityPath)
        requires
            self.wf(),
        ensures
            p == self.spec_selected_path(),
            (p == CapabilityPath::Core) == self.core_usable(),
            (p == CapabilityPath::LegacyExtension) == self.legacy_usable(),
    {
        if self.has_core_path() {
            CapabilityPath::Core
        } else {
            CapabilityPath::LegacyExtension
        }
    }

    /// Whether the capability precondition of `h` holds on this context.
    pub fn supports_handle(&self, h: Handle) -> (r: bool)
        ensures
            r == self.spec_supports_handle(h),
    {
        match h {
            Handle::Id(_) => self.has_core_path(),
            Handle::Handle(_) => self.gl_arb_shader_objects,
        }
    }
}

/// Capability exclusivity: on a well-formed context exactly one of the two
/// paths is usable at creation time, and the selected path is the usable
/// one.
pub proof fn lemma_capability_exclusivity(caps: ContextCaps)
    requires
        caps.wf(),
    ensures
        caps.core_usable() != caps.legacy_usable(),
        caps.core_usable() ==> caps.spec_selected_path() == CapabilityPath::Core,
        caps.legacy_usable() ==> caps.spec_selected_path() == CapabilityPath::LegacyExtension,
{
}

} // verus!
