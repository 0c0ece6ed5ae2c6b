use vstd::prelude::*;

use crate::update::Update;
use crate::update::UpdateModel;

verus! {

/// An opaque 128-bit token naming a point in the version sequence.
/// The zero token means "no version yet".
#[derive(Debug, Clone, Copy, PartialEq, Eq, Hash, Structural)]
pub struct VersionId(pub u128);

impl VersionId {
    /// The distinguished "no version yet" token.
    pub fn zero() -> (r: VersionId)
        ensures
            r.0 == 0,
    {
        VersionId(0)
    }
}

impl Default for VersionId {
    /// The default token is "no version yet".
    fn default() -> (r: Self)
        ensures
            r.0 == 0,
    {
        VersionId(0)
    }
}

/// A named delta: an ordered sequence of updates advancing state from a parent
/// version to the version named `version_id`.
#[derive(Debug)]
pub struct Version {
    pub version_id: VersionId,
    pub updates: Vec<Update>,
}

/// The mathematical shape of a `Version`.
#[verifier::ext_equal]
pub ghost struct VersionModel {
    pub version_id: VersionId,
    pub updates: Seq<UpdateModel>,
}

impl View for Version {
    type V = VersionModel;

    open spec fn view(&self) -> VersionModel {
        VersionModel {
            version_id: self.version_id,
            updates: self.updates@.map_values(|u: Update| u@),
        }
    }
}

impl Version {
    /// A deep copy whose model equals this version's model.
    pub fn dup(&self) -> (r: Version)
        ensures
            r@ == self@,
    {
        let mut us: Vec<Update> = Vec::new();
        let n = self.updates.len();
        for i in 0..n
            invariant
                n == self.updates.len(),
                us.len() == i,
                forall|j: int| 0 <= j < i ==> us@[j]@ == self.updates@[j]@,
        {
            us.push(self.updates[i].dup());
        }
        let r = Version { version_id: self.version_id, updates: us };
        proof {
            assert(r@.updates =~= self@.updates);
        }
        r
    }
}

} // verus!
