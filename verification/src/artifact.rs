//! Artifact descriptors: content-addressed references to the packaged code
//! implementing a graph's functions.

use vstd::prelude::*;

verus! {

/// A content-addressed reference to the code bundle a graph runs. Identity
/// is the content hash alone; `size` and `path` are descriptive. The
/// descriptor is supplied by the collaborator that stored the bundle; this
/// core never computes hashes or stores bytes itself.
#[derive(Clone, Debug, PartialEq, Eq)]
pub struct ComputeGraphCode {
    pub sha256_hash: String,
    pub size: u64,
    pub path: String,
}

/// Two descriptors stand for the same code exactly when their content
/// hashes agree; path and size play no part in identity.
pub open spec fn same_artifact(a: ComputeGraphCode, b: ComputeGraphCode) -> bool {
    a.sha256_hash@ == b.sha256_hash@
}

impl ComputeGraphCode {
    /// Whether `self` and `other` reference the same code for
    /// execution-binding purposes.
    pub fn same_code(&self, other: &ComputeGraphCode) -> (r: bool)
        ensures
            r == same_artifact(*self, *other),
    {
        self.sha256_hash == other.sha256_hash
    }
}

/// Artifact identity law: descriptors with identical content hashes are the
/// same code, whatever their paths or recorded sizes.
pub proof fn lemma_artifact_identity(a: ComputeGraphCode, b: ComputeGraphCode)
    requires
        a.sha256_hash@ == b.sha256_hash@,
    ensures
        same_artifact(a, b),
        same_artifact(b, a),
{
}

} // verus!
