use vstd::prelude::*;

use crate::serverdb::DbModel;
use crate::serverdb::apply_snapshot_model;
use crate::serverdb::apply_version_model;
use crate::serverdb::cache_version_model;
use crate::serverdb::chain_apply_model;
use crate::serverdb::snapshot_model_of;
use crate::snapshot::SnapshotModel;
use crate::update::apply_updates_model;
use crate::version::VersionId;
use crate::version::VersionModel;

verus! {

/// One operation on a node's state, as the model sees it.
pub ghost enum DbOp {
    /// Append a version as the new current.
    ApplyVersion(VersionModel),
    /// Record a version under a parent id without advancing.
    CacheVersion(VersionId, VersionModel),
    /// Replace current and data wholesale.
    ApplySnapshot(SnapshotModel),
    /// Any read: current id, child lookup, snapshot.
    Read,
}

/// The state after one operation.
pub open spec fn db_op_next(m: DbModel, op: DbOp) -> DbModel {
    match op {
        DbOp::ApplyVersion(v) => apply_version_model(m, v),
        DbOp::CacheVersion(p, v) => cache_version_model(m, p, v),
        DbOp::ApplySnapshot(s) => apply_snapshot_model(m, s),
        DbOp::Read => m,
    }
}

/// The state after a sequence of operations, in order.
pub open spec fn db_run(m: DbModel, ops: Seq<DbOp>) -> DbModel
    decreases ops.len(),
{
    if ops.len() == 0 {
        m
    } else {
        db_run(db_op_next(m, ops[0]), ops.drop_first())
    }
}

/// Whether an operation is one of the two that may move the current id.
pub open spec fn moves_current(op: DbOp) -> bool {
    op is ApplyVersion || op is ApplySnapshot
}

/// Version monotonicity, the frame half: across any run of operations none
/// of which applies a version or a snapshot, the current id and the data
/// stand still — in particular, caching and serving never move a node off a
/// version it has reached.
pub proof fn lemma_current_moved_only_by_apply(m: DbModel, ops: Seq<DbOp>)
    requires
        forall|i: int| 0 <= i < ops.len() ==> !moves_current(#[trigger] ops[i]),
    ensures
        db_run(m, ops).current == m.current,
        db_run(m, ops).data == m.data,
    decreases ops.len(),
{
    if ops.len() != 0 {
        lemma_current_moved_only_by_apply(db_op_next(m, ops[0]), ops.drop_first());
    }
}

/// Version monotonicity, the naming half: an operation that moves the
/// current id names its destination — a version moves it to that version's
/// id, a snapshot to that snapshot's id, and nothing else moves it at all.
pub proof fn lemma_current_change_names_op(m: DbModel, op: DbOp)
    requires
        db_op_next(m, op).current != m.current,
    ensures
        moves_current(op),
        op matches DbOp::ApplyVersion(v) ==> db_op_next(m, op).current == v.version_id,
        op matches DbOp::ApplySnapshot(s) ==> db_op_next(m, op).current == s.version_id,
{
}

/// Replaying data: folding each version's updates, in order, into a data
/// mapping.
pub open spec fn replay_data_model(
    d: Map<Seq<char>, Seq<char>>,
    vs: Seq<VersionModel>,
) -> Map<Seq<char>, Seq<char>>
    decreases vs.len(),
{
    if vs.len() == 0 {
        d
    } else {
        replay_data_model(apply_updates_model(d, vs[0].updates), vs.drop_first())
    }
}

/// Replay equivalence: for any node at any moment, applying the sequence of
/// versions it has absorbed since some starting point to the data it had at
/// that point yields exactly the data it holds now.
pub proof fn lemma_replay_equivalence(m: DbModel, vs: Seq<VersionModel>)
    ensures
        chain_apply_model(m, vs).data == replay_data_model(m.data, vs),
    decreases vs.len(),
{
    if vs.len() != 0 {
        lemma_replay_equivalence(apply_version_model(m, vs[0]), vs.drop_first());
    }
}

/// Round trip: applying the snapshot a node has just produced changes
/// nothing.
pub proof fn lemma_snapshot_roundtrip(m: DbModel)
    ensures
        apply_snapshot_model(m, snapshot_model_of(m)) == m,
{
    assert(apply_snapshot_model(m, snapshot_model_of(m)) =~= m);
}

/// Round trip: after applying a version, looking the old current up in the
/// version index finds exactly that version.
pub proof fn lemma_version_then_child(m: DbModel, v: VersionModel)
    ensures
        apply_version_model(m, v).versions.contains_key(m.current),
        apply_version_model(m, v).versions[m.current] == v,
{
}

} // verus!
