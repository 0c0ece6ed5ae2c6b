use vstd::prelude::*;

use crate::protocol::child_reply_ok;
use crate::serverdb::DbModel;
use crate::serverdb::ServerDb;
use crate::serverdb::apply_snapshot_model;
use crate::serverdb::apply_version_model;
use crate::serverdb::cache_version_model;
use crate::serverdb::empty_db_model;
use crate::serverdb::snapshot_model_of;
use crate::snapshot::Snapshot;
use crate::version::Version;
use crate::version::VersionId;
use crate::version::VersionModel;

verus! {

/// An interior node: terminates downstream requests locally when possible,
/// proxies cache misses to its own upstream, and stays current by draining
/// the child-version chain whenever a notice arrives.
pub struct CachingIntermediate {
    name: String,
    server_db: ServerDb,
}

/// The intermediate's first move on a `GetChildVersion` request: a local
/// cache hit served at once, or the request it must put to its upstream.
pub enum ChildAnswer {
    /// The recorded child: reply with it, the cache terminated the request.
    Ready(Version),
    /// A cache miss: ask upstream for the child of this id, then finish with
    /// `finish_child_request`.
    AskUpstream(VersionId),
}

/// Every version one index has recorded agrees with an authoritative index:
/// whatever the node serves, the authority would serve too.
pub open spec fn index_subsumed_by(
    vs: Map<VersionId, VersionModel>,
    auth: Map<VersionId, VersionModel>,
) -> bool {
    forall|p: VersionId| #[trigger]
        vs.contains_key(p) ==> auth.contains_key(p) && vs[p] == auth[p]
}

impl CachingIntermediate {
    /// The model of the node's local state.
    pub closed spec fn db(&self) -> DbModel {
        self.server_db@
    }

    /// The node's name, for the operator's eyes only.
    pub closed spec fn name_text(&self) -> Seq<char> {
        self.name@
    }

    /// A fresh intermediate with an empty local state; it adopts its first
    /// real state from the upstream snapshot at startup.
    pub fn new(name: String) -> (r: CachingIntermediate)
        ensures
            r.db() == empty_db_model(),
            r.name_text() == name@,
    {
        CachingIntermediate { name, server_db: ServerDb::new() }
    }

    /// The node's name.
    pub fn name(&self) -> (r: &String)
        ensures
            r@ == self.name_text(),
    {
        &self.name
    }

    /// The node's current version id: the parent it pulls past.
    pub fn current_version_id(&self) -> (r: VersionId)
        ensures
            r == self.db().current,
    {
        self.server_db.get_current_version_id()
    }

    /// Startup: adopt the upstream snapshot wholesale. The only time the
    /// intermediate replaces its data as a whole.
    pub fn apply_startup_snapshot(&mut self, snapshot: Snapshot)
        ensures
            final(self).db() == apply_snapshot_model(old(self).db(), snapshot@),
            final(self).name_text() == old(self).name_text(),
    {
        self.server_db.apply_snapshot(snapshot);
    }

    /// Serve `GetSnapshot` from the node's own state, never proxying.
    pub fn answer_snapshot(&self) -> (r: Snapshot)
        ensures
            r@ == snapshot_model_of(self.db()),
    {
        self.server_db.get_snapshot()
    }

    /// The first half of serving `GetChildVersion(p)`: serve a local cache
    /// hit at once, else name the upstream request to make. The upstream is
    /// asked for the child of the caller's `p` itself, so that the reply is
    /// the true child of `p` and caching it under `p` stays semantically
    /// correct even when `p` differs from this node's own current.
    pub fn plan_child_request(&self, p: VersionId) -> (r: ChildAnswer)
        ensures
            match r {
                ChildAnswer::Ready(v) => self.db().versions.contains_key(p) && v@
                    == self.db().versions[p],
                ChildAnswer::AskUpstream(q) => q == p && !self.db().versions.contains_key(p),
            },
    {
        match self.server_db.get_child_version(p) {
            Some(v) => ChildAnswer::Ready(v),
            None => ChildAnswer::AskUpstream(p),
        }
    }

    /// The second half after the upstream replied to `GetChildVersion(p)`:
    /// cache a positive reply under `p` and hand the reply on unchanged.
    /// Negative replies are not cached.
    pub fn finish_child_request(&mut self, p: VersionId, from_upstream: Option<Version>) -> (r:
        Option<Version>)
        ensures
            final(self).name_text() == old(self).name_text(),
            match from_upstream {
                Some(v) => final(self).db() == cache_version_model(old(self).db(), p, v@) && (r
                    matches Some(rv) && rv@ == v@),
                None => final(self).db() == old(self).db() && r is None,
            },
    {
        match from_upstream {
            Some(v) => {
                self.server_db.cache_version(p, v.dup());
                Some(v)
            },
            None => None,
        }
    }

    /// One step of the notice-driven catch-up: apply a version the upstream
    /// handed back for this node's own current.
    pub fn absorb_pulled(&mut self, v: Version)
        ensures
            final(self).db() == apply_version_model(old(self).db(), v@),
            final(self).name_text() == old(self).name_text(),
    {
        self.server_db.apply_version(v);
    }

    /// Serve `GetChildVersion(p)` in full against an in-memory upstream: a
    /// local cache hit is served at once, a miss is fetched from the upstream
    /// and cached under `p`. Wherever this node's cache is subsumed by the
    /// upstream's index, the reply is exactly what the upstream itself would
    /// answer for `p` — a cache hit never serves a stale or foreign version —
    /// and the cache stays subsumed.
    pub fn serve_child_from(&mut self, p: VersionId, up: &ServerDb) -> (r: Option<Version>)
        requires
            index_subsumed_by(old(self).db().versions, up@.versions),
        ensures
            index_subsumed_by(final(self).db().versions, up@.versions),
            child_reply_ok(up@, p, r),
            final(self).db().current == old(self).db().current,
            final(self).db().data == old(self).db().data,
            final(self).name_text() == old(self).name_text(),
    {
        match self.plan_child_request(p) {
            ChildAnswer::Ready(v) => Some(v),
            ChildAnswer::AskUpstream(q) => {
                let from_upstream = up.get_child_version(q);
                self.finish_child_request(p, from_upstream)
            },
        }
    }

    /// Run the whole catch-up against an in-memory upstream state.
    pub fn catch_up(&mut self, up: &ServerDb)
        requires
            exists|n: nat| crate::sync::sync_ok(up@, old(self).db().current, old(self).db().data, n),
        ensures
            final(self).db().current == up@.current,
            final(self).db().data == up@.data,
            final(self).name_text() == old(self).name_text(),
    {
        crate::sync::sync_from(&mut self.server_db, up);
    }
}

/// Intermediate cache correctness: a served child (a cache hit, by
/// `plan_child_request`'s contract, equal to the node's recorded child of
/// `p`) is exactly what the authoritative index holds for `p`, as long as the
/// node's index is subsumed by the authority.
pub proof fn lemma_cache_hit_is_authoritative(
    m: DbModel,
    auth: Map<VersionId, VersionModel>,
    p: VersionId,
)
    requires
        index_subsumed_by(m.versions, auth),
        m.versions.contains_key(p),
    ensures
        auth.contains_key(p),
        auth[p] == m.versions[p],
{
}

/// Caching an upstream reply that agrees with the authority keeps the node's
/// index subsumed by the authority.
pub proof fn lemma_subsumed_after_cache(
    m: DbModel,
    auth: Map<VersionId, VersionModel>,
    p: VersionId,
    v: VersionModel,
)
    requires
        index_subsumed_by(m.versions, auth),
        auth.contains_key(p),
        auth[p] == v,
    ensures
        index_subsumed_by(cache_version_model(m, p, v).versions, auth),
{
}

/// Applying a version that agrees with the authority's child of the node's
/// current keeps the node's index subsumed by the authority.
pub proof fn lemma_subsumed_after_apply(m: DbModel, auth: Map<VersionId, VersionModel>, v: VersionModel)
    requires
        index_subsumed_by(m.versions, auth),
        auth.contains_key(m.current),
        auth[m.current] == v,
    ensures
        index_subsumed_by(apply_version_model(m, v).versions, auth),
{
}

} // verus!
