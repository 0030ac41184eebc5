//! Identifiers of GPU shader objects, tagged by the capability path that
//! created them.

use vstd::prelude::*;

verus! {

/// Identifier of a native shader object. Exactly one variant is populated;
/// every operation dispatches on it and must hold the matching capability
/// precondition before any native call.
#[derive(Clone, Copy, PartialEq, Eq, Structural, Debug)]
pub enum Handle {
    /// Created through the modern core object model.
    Id(u32),
    /// Created through the legacy extension's object model; the payload is
    /// the extension-defined handle, carried as a plain integer.
    Handle(u64),
}

impl Handle {
    /// The null sentinel of the active variant: identifier 0 under the core
    /// path, the extension's null handle (also 0) under the legacy path.
    pub open spec fn spec_is_null(self) -> bool {
        match self {
            Handle::Id(id) => id == 0,
            Handle::Handle(h) => h == 0,
        }
    }

    /// Whether this handle is its variant's null sentinel.
    pub fn is_null(&self) -> (r: bool)
        ensures
            r == self.spec_is_null(),
    {
        match self {
            Handle::Id(id) => *id == 0,
            Handle::Handle(h) => *h == 0,
        }
    }
}

/// Null-sentinel equivalence: a core handle with identifier 0 and a legacy
/// handle with the extension's null sentinel both report invalid, and no
/// other value of either variant does.
pub proof fn lemma_null_sentinel_equivalence()
    ensures
        Handle::Id(0u32).spec_is_null(),
        Handle::Handle(0u64).spec_is_null(),
        forall|id: u32| id != 0 ==> !(#[trigger] Handle::Id(id).spec_is_null()),
        forall|h: u64| h != 0 ==> !(#[trigger] Handle::Handle(h).spec_is_null()),
{
}

} // verus!
