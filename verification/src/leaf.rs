use vstd::prelude::*;

use crate::serverdb::DbModel;
use crate::serverdb::ServerDb;
use crate::serverdb::apply_snapshot_model;
use crate::serverdb::apply_version_model;
use crate::serverdb::empty_db_model;
use crate::serverdb::snapshot_model_of;
use crate::snapshot::Snapshot;
use crate::version::Version;
use crate::version::VersionId;

verus! {

/// A leaf node: consumes versions and materialises the full key/value store
/// locally, for observation. Leaves never serve requests and never broadcast
/// notices.
pub struct DebugLeaf {
    name: String,
    server_db: ServerDb,
}

impl DebugLeaf {
    /// The model of the node's local state.
    pub closed spec fn db(&self) -> DbModel {
        self.server_db@
    }

    /// The node's name, for the operator's eyes only.
    pub closed spec fn name_text(&self) -> Seq<char> {
        self.name@
    }

    /// A fresh leaf with an empty local state; it adopts its first real
    /// state from the upstream snapshot at startup.
    pub fn new(name: String) -> (r: DebugLeaf)
        ensures
            r.db() == empty_db_model(),
            r.name_text() == name@,
    {
        DebugLeaf { name, server_db: ServerDb::new() }
    }

    /// The node's name.
    pub fn name(&self) -> (r: &String)
        ensures
            r@ == self.name_text(),
    {
        &self.name
    }

    /// The node's current version id: the parent it pulls past.
    pub fn current_version_id(&self) -> (r: VersionId)
        ensures
            r == self.db().current,
    {
        self.server_db.get_current_version_id()
    }

    /// Startup: adopt the upstream snapshot wholesale.
    pub fn apply_startup_snapshot(&mut self, snapshot: Snapshot)
        ensures
            final(self).db() == apply_snapshot_model(old(self).db(), snapshot@),
            final(self).name_text() == old(self).name_text(),
    {
        self.server_db.apply_snapshot(snapshot);
    }

    /// One step of the pull protocol: apply a version the upstream handed
    /// back for this node's own current.
    pub fn absorb_pulled(&mut self, v: Version)
        ensures
            final(self).db() == apply_version_model(old(self).db(), v@),
            final(self).name_text() == old(self).name_text(),
    {
        self.server_db.apply_version(v);
    }

    /// Run the whole pull protocol against an in-memory upstream state.
    pub fn catch_up(&mut self, up: &ServerDb)
        requires
            exists|n: nat| crate::sync::sync_ok(up@, old(self).db().current, old(self).db().data, n),
        ensures
            final(self).db().current == up@.current,
            final(self).db().data == up@.data,
            final(self).name_text() == old(self).name_text(),
    {
        crate::sync::sync_from(&mut self.server_db, up);
    }

    /// The node's materialised view, for observation: its current id and
    /// data as one consistent pair.
    pub fn observe(&self) -> (r: Snapshot)
        ensures
            r@ == snapshot_model_of(self.db()),
    {
        self.server_db.get_snapshot()
    }
}

} // verus!
