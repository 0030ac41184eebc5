//! The API version a context reports, as a (major, minor) pair.

use vstd::prelude::*;

verus! {

/// A reported API version: major and minor number.
#[derive(Clone, Copy, PartialEq, Eq, Structural, Debug)]
pub struct GlVersion(pub u32, pub u32);

impl GlVersion {
    /// Lexicographic order on (major, minor): whether `self` reaches `other`.
    pub open spec fn at_least(self, other: GlVersion) -> bool {
        self.0 > other.0 || (self.0 == other.0 && self.1 >= other.1)
    }

    /// Compare two versions in lexicographic order.
    pub fn ge(&self, other: &GlVersion) -> (r: bool)
        ensures
            r == self.at_least(*other),
    {
        self.0 > other.0 || (self.0 == other.0 && self.1 >= other.1)
    }
}

} // verus!
