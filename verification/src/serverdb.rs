use vstd::prelude::*;

use crate::kvmap::KvMap;
use crate::snapshot::Snapshot;
use crate::snapshot::SnapshotModel;
use crate::update::Update;
use crate::update::apply_updates_model;
use crate::update::lemma_apply_updates_push;
use crate::version::Version;
use crate::version::VersionId;
use crate::version::VersionModel;
use crate::version_index::VersionIndex;

verus! {

/// A node's local state: the current version id, the version index keyed by
/// parent id, and the data mapping as of the current version.
#[derive(Debug)]
pub struct ServerDb {
    current_version_id: VersionId,
    versions: VersionIndex,
    data: KvMap,
}

/// The mathematical shape of a `ServerDb`.
#[verifier::ext_equal]
pub ghost struct DbModel {
    pub current: VersionId,
    pub versions: Map<VersionId, VersionModel>,
    pub data: Map<Seq<char>, Seq<char>>,
}

impl View for ServerDb {
    type V = DbModel;

    closed spec fn view(&self) -> DbModel {
        DbModel {
            current: self.current_version_id,
            versions: self.versions@,
            data: self.data@,
        }
    }
}

/// The model of a freshly initialised node: no version yet, nothing cached,
/// no data.
pub open spec fn empty_db_model() -> DbModel {
    DbModel {
        current: VersionId(0),
        versions: Map::<VersionId, VersionModel>::empty(),
        data: Map::<Seq<char>, Seq<char>>::empty(),
    }
}

/// What applying a version does: the data mapping absorbs the updates in
/// order, the version is recorded as the child of the old current, and the
/// current advances to the version's id.
pub open spec fn apply_version_model(m: DbModel, v: VersionModel) -> DbModel {
    DbModel {
        current: v.version_id,
        versions: m.versions.insert(m.current, v),
        data: apply_updates_model(m.data, v.updates),
    }
}

/// What caching a version does: only the version index changes.
pub open spec fn cache_version_model(m: DbModel, parent: VersionId, v: VersionModel) -> DbModel {
    DbModel { current: m.current, versions: m.versions.insert(parent, v), data: m.data }
}

/// What applying a snapshot does: current and data are replaced wholesale;
/// the version index is kept.
pub open spec fn apply_snapshot_model(m: DbModel, s: SnapshotModel) -> DbModel {
    DbModel { current: s.version_id, versions: m.versions, data: s.data }
}

/// The snapshot a node answers with: its current id and its data, as one
/// consistent pair.
pub open spec fn snapshot_model_of(m: DbModel) -> SnapshotModel {
    SnapshotModel { version_id: m.current, data: m.data }
}

/// Applying a sequence of versions, one after another, in order.
pub open spec fn chain_apply_model(m: DbModel, vs: Seq<VersionModel>) -> DbModel
    decreases vs.len(),
{
    if vs.len() == 0 {
        m
    } else {
        chain_apply_model(apply_version_model(m, vs[0]), vs.drop_first())
    }
}

/// Appending one version applies it after the rest.
pub proof fn lemma_chain_apply_push(m: DbModel, vs: Seq<VersionModel>, v: VersionModel)
    ensures
        chain_apply_model(m, vs.push(v)) == apply_version_model(chain_apply_model(m, vs), v),
    decreases vs.len(),
{
    if vs.len() == 0 {
        reveal_with_fuel(chain_apply_model, 2);
        assert(vs.push(v)[0] == v);
        assert(vs.push(v).drop_first() =~= Seq::<VersionModel>::empty());
    } else {
        assert(vs.push(v)[0] == vs[0]);
        assert(vs.push(v).drop_first() =~= vs.drop_first().push(v));
        lemma_chain_apply_push(apply_version_model(m, vs[0]), vs.drop_first(), v);
    }
}

impl ServerDb {
    /// A freshly initialised node state.
    pub fn new() -> (r: ServerDb)
        ensures
            r@ == empty_db_model(),
    {
        ServerDb {
            current_version_id: VersionId(0),
            versions: VersionIndex::new(),
            data: KvMap::new(),
        }
    }

    /// The current version id: the latest in the sequence of versions.
    pub fn get_current_version_id(&self) -> (r: VersionId)
        ensures
            r == self@.current,
    {
        self.current_version_id
    }

    /// Append `v` as the new current version: apply each update in declared
    /// order to the data mapping, record `v` as the child of the old current,
    /// then advance the current to `v`'s id.
    pub fn apply_version(&mut self, v: Version)
        ensures
            final(self)@ == apply_version_model(old(self)@, v@),
    {
        let ghost d0 = self@.data;
        let n = v.updates.len();
        for i in 0..n
            invariant
                n == v.updates.len(),
                self@.data == apply_updates_model(d0, v@.updates.take(i as int)),
                self@.current == old(self)@.current,
                self@.versions == old(self)@.versions,
        {
            match &v.updates[i] {
                Update::Put(k, val) => self.data.set(k.clone(), val.clone()),
                Update::Delete(k) => self.data.delete(k),
            }
            proof {
                assert(v@.updates.take(i + 1) =~= v@.updates.take(i as int).push(
                    v@.updates[i as int],
                ));
                lemma_apply_updates_push(d0, v@.updates.take(i as int), v@.updates[i as int]);
            }
        }
        proof {
            assert(v@.updates.take(n as int) =~= v@.updates);
        }
        let vid = v.version_id;
        let parent = self.current_version_id;
        self.versions.insert(parent, v);
        self.current_version_id = vid;
    }

    /// Record `v` as the child of `parent` without touching the current
    /// version or the data. Intended for proxy caching at intermediates.
    pub fn cache_version(&mut self, parent_version_id: VersionId, v: Version)
        ensures
            final(self)@ == cache_version_model(old(self)@, parent_version_id, v@),
    {
        self.versions.insert(parent_version_id, v);
    }

    /// A copy of the cached child of `parent`, or `None` where none is known.
    pub fn get_child_version(&self, parent_version_id: VersionId) -> (r: Option<Version>)
        ensures
            match r {
                Some(v) => self@.versions.contains_key(parent_version_id) && v@
                    == self@.versions[parent_version_id],
                None => !self@.versions.contains_key(parent_version_id),
            },
    {
        self.versions.get(parent_version_id)
    }

    /// The current id and a copy of the data, as one consistent pair.
    pub fn get_snapshot(&self) -> (r: Snapshot)
        ensures
            r@ == snapshot_model_of(self@),
    {
        Snapshot { version_id: self.current_version_id, data: self.data.dup() }
    }

    /// Replace the current id and the data wholesale from `snapshot`. The
    /// version index is kept: older cached child versions remain valid
    /// lookups for peers still lagging.
    pub fn apply_snapshot(&mut self, snapshot: Snapshot)
        ensures
            final(self)@ == apply_snapshot_model(old(self)@, snapshot@),
    {
        let Snapshot { version_id, data } = snapshot;
        self.current_version_id = version_id;
        self.data = data;
    }
}

impl Default for ServerDb {
    /// A freshly initialised node state.
    fn default() -> (r: Self)
        ensures
            r@ == empty_db_model(),
    {
        ServerDb::new()
    }
}

} // verus!
