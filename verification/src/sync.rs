use vstd::prelude::*;

use crate::serverdb::DbModel;
use crate::serverdb::ServerDb;
use crate::serverdb::apply_version_model;
use crate::serverdb::chain_apply_model;
use crate::serverdb::lemma_chain_apply_push;
use crate::update::apply_updates_model;
use crate::version::VersionId;
use crate::version::VersionModel;

verus! {

/// The downstream state `(cur, data)` reaches the upstream state `up` in
/// exactly `n` rounds of the child-version pull protocol: `n` times in a row
/// the upstream knows a child of the downstream current, applying each child
/// advances the downstream data accordingly, and at the end the downstream
/// stands at the upstream's current id and data, of which the upstream knows
/// no child.
pub open spec fn sync_ok(
    up: DbModel,
    cur: VersionId,
    data: Map<Seq<char>, Seq<char>>,
    n: nat,
) -> bool
    decreases n,
{
    if n == 0 {
        cur == up.current && data == up.data && !up.versions.contains_key(cur)
    } else {
        up.versions.contains_key(cur) && sync_ok(
            up,
            up.versions[cur].version_id,
            apply_updates_model(data, up.versions[cur].updates),
            (n - 1) as nat,
        )
    }
}

/// Wherever a pull can run to quiescence, the upstream knows no child of its
/// own current: so a node already standing at the upstream state pulls
/// nothing, and a repeated pull after quiescence is a no-op.
pub proof fn lemma_resync_is_no_op(
    up: DbModel,
    cur: VersionId,
    data: Map<Seq<char>, Seq<char>>,
    n: nat,
)
    requires
        sync_ok(up, cur, data, n),
    ensures
        !up.versions.contains_key(up.current),
        sync_ok(up, up.current, up.data, 0),
    decreases n,
{
    if n != 0 {
        lemma_resync_is_no_op(
            up,
            up.versions[cur].version_id,
            apply_updates_model(data, up.versions[cur].updates),
            (n - 1) as nat,
        );
    }
}

/// The ids a pull starting at `c0` walks through the chain `vs`: the
/// starting id, then each version's id in order.
pub open spec fn chain_ids(c0: VersionId, vs: Seq<VersionModel>) -> Seq<VersionId> {
    Seq::new(
        vs.len() + 1,
        |i: int|
            if i == 0 {
                c0
            } else {
                vs[i - 1].version_id
            },
    )
}

/// A chain is fresh for a state when the ids it walks are pairwise distinct
/// and none of them is already a key of the state's version index — which is
/// how a run looks when every version id is freshly minted.
pub open spec fn chain_fresh(m: DbModel, vs: Seq<VersionModel>) -> bool {
    let ids = chain_ids(m.current, vs);
    &&& forall|i: int, j: int| 0 <= i < j < ids.len() ==> ids[i] != ids[j]
    &&& forall|i: int| 0 <= i < ids.len() ==> !m.versions.contains_key(#[trigger] ids[i])
}

/// Applying a chain leaves the version index untouched at any key that is
/// none of the chain's parent ids.
proof fn lemma_chain_apply_frame(m: DbModel, vs: Seq<VersionModel>, k: VersionId)
    requires
        forall|i: int| 0 <= i < vs.len() ==> chain_ids(m.current, vs)[i] != k,
    ensures
        chain_apply_model(m, vs).versions.contains_key(k) == m.versions.contains_key(k),
        m.versions.contains_key(k) ==> chain_apply_model(m, vs).versions[k] == m.versions[k],
    decreases vs.len(),
{
    if vs.len() != 0 {
        let m1 = apply_version_model(m, vs[0]);
        let vs1 = vs.drop_first();
        assert(chain_ids(m.current, vs)[0] == m.current);
        assert forall|i: int| 0 <= i < vs1.len() implies chain_ids(m1.current, vs1)[i] != k by {
            if i == 0 {
                assert(chain_ids(m.current, vs)[1] == vs[0].version_id);
            } else {
                assert(chain_ids(m1.current, vs1)[i] == vs1[i - 1].version_id);
                assert(chain_ids(m.current, vs)[i + 1] == vs[i].version_id);
                assert(vs1[i - 1] == vs[i]);
            }
        }
        lemma_chain_apply_frame(m1, vs1, k);
    }
}

/// Where the ids are fresh — pairwise distinct and unseen, as minted ids are
/// — a node that saw state `m` can pull the whole chain applied on top of it:
/// the pull walks exactly the chain and converges. This discharges
/// `sync_from`'s premise for every state that arises by producing fresh
/// versions over a state the downstream once shared.
pub proof fn lemma_fresh_chain_syncs(m: DbModel, vs: Seq<VersionModel>)
    requires
        chain_fresh(m, vs),
    ensures
        sync_ok(chain_apply_model(m, vs), m.current, m.data, vs.len()),
    decreases vs.len(),
{
    let up = chain_apply_model(m, vs);
    let ids = chain_ids(m.current, vs);
    assert(ids[0] == m.current);
    if vs.len() == 0 {
        assert(!up.versions.contains_key(m.current));
    } else {
        let m1 = apply_version_model(m, vs[0]);
        let vs1 = vs.drop_first();
        let ids1 = chain_ids(m1.current, vs1);
        assert forall|i: int| 0 <= i < ids1.len() implies ids1[i] == ids[i + 1] by {
            if i > 0 {
                assert(vs1[i - 1] == vs[i]);
            }
        }
        assert forall|i: int| 0 <= i < ids1.len() implies !m1.versions.contains_key(
            #[trigger] ids1[i],
        ) by {
            assert(ids1[i] == ids[i + 1]);
            assert(ids[i + 1] != ids[0]);
        }
        assert(chain_fresh(m1, vs1));
        lemma_fresh_chain_syncs(m1, vs1);
        assert forall|i: int| 0 <= i < vs1.len() implies chain_ids(m1.current, vs1)[i]
            != m.current by {
            assert(ids1[i] == ids[i + 1]);
        }
        lemma_chain_apply_frame(m1, vs1, m.current);
        assert(up.versions.contains_key(m.current));
        assert(up.versions[m.current] == vs[0]);
        assert(up.versions[m.current].version_id == m1.current);
        assert(up.versions[m.current].updates == vs[0].updates);
    }
}

/// The child-version pull protocol, run to quiescence against an upstream
/// state: ask for the child of the local current; if one comes back, apply it
/// and repeat; once none does, stop. Where the upstream chain is reachable
/// from the local state, the caller converges: it ends at the upstream's
/// current id with the upstream's data, having changed its state by nothing
/// but applied versions — so duplicate or extra runs after quiescence change
/// nothing.
pub fn sync_from(down: &mut ServerDb, up: &ServerDb)
    requires
        exists|n: nat| sync_ok(up@, old(down)@.current, old(down)@.data, n),
    ensures
        final(down)@.current == up@.current,
        final(down)@.data == up@.data,
        exists|vs: Seq<VersionModel>|
            {
                &&& final(down)@ == chain_apply_model(old(down)@, vs)
                &&& forall|i: int|
                    0 <= i < vs.len() ==> exists|p: VersionId|
                        up@.versions.contains_key(p) && up@.versions[p] == #[trigger] vs[i]
            },
        sync_ok(up@, final(down)@.current, final(down)@.data, 0),
        old(down)@.current == up@.current && old(down)@.data == up@.data ==> final(down)@ == old(
            down,
        )@,
{
    let ghost mut n: nat = choose|n: nat| sync_ok(up@, down@.current, down@.data, n);
    let ghost mut vs: Seq<VersionModel> = Seq::empty();
    proof {
        lemma_resync_is_no_op(up@, down@.current, down@.data, n);
        if down@.current == up@.current && down@.data == up@.data {
            if n != 0 {
                assert(up@.versions.contains_key(up@.current));
            }
        }
        assert(chain_apply_model(old(down)@, vs) == old(down)@);
    }
    loop
        invariant
            sync_ok(up@, down@.current, down@.data, n),
            !up@.versions.contains_key(up@.current),
            down@ == chain_apply_model(old(down)@, vs),
            forall|i: int|
                0 <= i < vs.len() ==> exists|p: VersionId|
                    up@.versions.contains_key(p) && up@.versions[p] == #[trigger] vs[i],
            old(down)@.current == up@.current && old(down)@.data == up@.data ==> down@ == old(
                down,
            )@,
        decreases n,
    {
        let cur = down.get_current_version_id();
        match up.get_child_version(cur) {
            Some(v) => {
                proof {
                    assert(n != 0);
                    if old(down)@.current == up@.current && old(down)@.data == up@.data {
                        assert(!up@.versions.contains_key(down@.current));
                        assert(false);
                    }
                }
                down.apply_version(v);
                proof {
                    n = (n - 1) as nat;
                    lemma_chain_apply_push(old(down)@, vs, v@);
                    let pre_vs = vs;
                    vs = vs.push(v@);
                    assert(up@.versions.contains_key(cur) && up@.versions[cur] == vs.last());
                    assert forall|i: int| 0 <= i < vs.len() implies exists|p: VersionId|
                        up@.versions.contains_key(p) && up@.versions[p] == #[trigger] vs[i] by {
                        if i < pre_vs.len() {
                            assert(vs[i] == pre_vs[i]);
                        }
                    }
                }
            },
            None => {
                proof {
                    assert(n == 0);
                }
                return ;
            },
        }
    }
}

} // verus!
