use vstd::prelude::*;

use crate::kvmap::KvMap;
use crate::version::VersionId;

verus! {

/// A self-contained materialised state: the full data mapping together with
/// the version id it represents. Safe to transmit as a unit.
#[derive(Debug)]
pub struct Snapshot {
    pub version_id: VersionId,
    pub data: KvMap,
}

/// The mathematical shape of a `Snapshot`.
#[verifier::ext_equal]
pub ghost struct SnapshotModel {
    pub version_id: VersionId,
    pub data: Map<Seq<char>, Seq<char>>,
}

impl View for Snapshot {
    type V = SnapshotModel;

    open spec fn view(&self) -> SnapshotModel {
        SnapshotModel { version_id: self.version_id, data: self.data@ }
    }
}

impl Snapshot {
    /// A deep copy denoting the same state.
    pub fn dup(&self) -> (r: Snapshot)
        ensures
            r@ == self@,
    {
        Snapshot { version_id: self.version_id, data: self.data.dup() }
    }
}

} // verus!
