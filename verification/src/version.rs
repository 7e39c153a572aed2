//! Graph versions: opaque, comparable identifiers distinguishing successive
//! definitions of a graph under the same `(namespace, name)` pair.

use vstd::prelude::*;

verus! {

/// A monotonically assigned version of a graph definition. Each accepted
/// creation or update of a graph under a fixed `(namespace, name)` mints a
/// new, strictly greater version; a version is never reused.
#[derive(Clone, Copy, Debug, PartialEq, Eq, PartialOrd, Ord, Structural)]
pub struct GraphVersion(pub u64);

impl GraphVersion {
    /// The version an internal graph carries before the storage boundary has
    /// assigned one.
    pub open spec fn initial_spec() -> GraphVersion {
        GraphVersion(0)
    }

    /// The next version after `self` in the per-graph sequence.
    pub open spec fn next_spec(self) -> GraphVersion
        recommends
            self.0 < u64::MAX,
    {
        GraphVersion((self.0 + 1) as u64)
    }

    /// Pure successor step of the versioning algorithm: from a prior version
    /// to the next one. Strictly increasing, so successive accepted
    /// submissions of one graph never share a version.
    pub fn next(self) -> (r: GraphVersion)
        requires
            self.0 < u64::MAX,
        ensures
            r == self.next_spec(),
            r.0 > self.0,
    {
        GraphVersion(self.0 + 1)
    }
}

impl Default for GraphVersion {
    /// The unassigned version, below every assigned one.
    fn default() -> (r: Self)
        ensures
            r == GraphVersion::initial_spec(),
    {
        GraphVersion(0)
    }
}

} // verus!
