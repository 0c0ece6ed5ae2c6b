use dsr::CachingIntermediate;
use dsr::ChildAnswer;
use dsr::DebugLeaf;
use dsr::FakeIntake;
use dsr::Reply;
use dsr::Request;
use dsr::ServerDb;
use dsr::Update;
use dsr::Version;
use dsr::VersionId;
use dsr::sync_from;

fn s(x: &str) -> String {
    x.to_string()
}

fn ver(id: u128, updates: Vec<Update>) -> Version {
    Version { version_id: VersionId(id), updates }
}

/// Ask the intake for children of the leaf's current until it knows none:
/// the leaf's side of the pull protocol over a direct link.
fn leaf_pull_from_intake(leaf: &mut DebugLeaf, intake: &FakeIntake) {
    loop {
        let p = leaf.current_version_id();
        match intake.answer(&Request::GetChildVersion(p)) {
            Reply::ChildVersion(Some(v)) => leaf.absorb_pulled(v),
            Reply::ChildVersion(None) => break,
            _ => unreachable!(),
        }
    }
}

/// The intermediate's side of staying current: drain the chain from the
/// intake, as it does after a notice.
fn intermediate_pull_from_intake(m: &mut CachingIntermediate, intake: &FakeIntake) {
    loop {
        let p = m.current_version_id();
        match intake.answer(&Request::GetChildVersion(p)) {
            Reply::ChildVersion(Some(v)) => m.absorb_pulled(v),
            Reply::ChildVersion(None) => break,
            _ => unreachable!(),
        }
    }
}

/// The leaf's pull routed through the intermediate: cache hits are served
/// locally; misses are proxied to the intake and counted.
fn leaf_pull_via_intermediate(
    leaf: &mut DebugLeaf,
    m: &mut CachingIntermediate,
    intake: &FakeIntake,
    upstream_calls: &mut u32,
) {
    loop {
        let p = leaf.current_version_id();
        let reply = match m.plan_child_request(p) {
            ChildAnswer::Ready(v) => Some(v),
            ChildAnswer::AskUpstream(q) => {
                *upstream_calls += 1;
                let from_up = match intake.answer(&Request::GetChildVersion(q)) {
                    Reply::ChildVersion(c) => c,
                    _ => unreachable!(),
                };
                m.finish_child_request(p, from_up)
            },
        };
        match reply {
            Some(v) => leaf.absorb_pulled(v),
            None => break,
        }
    }
}

fn intake_snapshot(intake: &FakeIntake) -> dsr::Snapshot {
    match intake.answer(&Request::GetSnapshot) {
        Reply::Snapshot(snap) => snap,
        _ => unreachable!(),
    }
}

#[test]
fn s1_single_hop_propagation() {
    let mut db = ServerDb::default();
    let snap0 = db.get_snapshot();
    db.apply_version(ver(1, vec![Update::Put(s("a"), s("1"))]));
    let intake = FakeIntake::new(s("intake"), db);

    let mut leaf = DebugLeaf::new(s("leaf"));
    leaf.apply_startup_snapshot(snap0);
    assert!(leaf.observe().data.is_empty());
    leaf_pull_from_intake(&mut leaf, &intake);

    let view = leaf.observe();
    assert_eq!(view.version_id, VersionId(1));
    assert_eq!(view.data.get(&s("a")), Some(s("1")));
}

#[test]
fn s2_three_version_chain_through_intermediate() {
    let mut db = ServerDb::default();
    let snap0 = db.get_snapshot();
    db.apply_version(ver(1, vec![Update::Put(s("x"), s("1"))]));
    db.apply_version(ver(2, vec![Update::Put(s("x"), s("2"))]));
    db.apply_version(ver(3, vec![Update::Delete(s("x"))]));
    let intake = FakeIntake::new(s("intake"), db);

    let mut m = CachingIntermediate::new(s("inter"));
    m.apply_startup_snapshot(snap0.dup());
    let mut leaf = DebugLeaf::new(s("leaf"));
    leaf.apply_startup_snapshot(snap0);

    // a notice reaches the intermediate: it drains the chain from the intake
    intermediate_pull_from_intake(&mut m, &intake);
    let mut calls: u32 = 0;
    leaf_pull_via_intermediate(&mut leaf, &mut m, &intake, &mut calls);

    let view = leaf.observe();
    assert_eq!(view.version_id, VersionId(3));
    assert!(view.data.is_empty());
}

#[test]
fn s3_cache_hit_spares_the_upstream() {
    let mut db = ServerDb::default();
    let snap0 = db.get_snapshot();
    db.apply_version(ver(1, vec![Update::Put(s("a"), s("1"))]));
    let intake = FakeIntake::new(s("intake"), db);

    let mut m = CachingIntermediate::new(s("inter"));
    m.apply_startup_snapshot(intake_snapshot(&intake));

    let mut l1 = DebugLeaf::new(s("l1"));
    l1.apply_startup_snapshot(snap0.dup());
    let mut l2 = DebugLeaf::new(s("l2"));
    l2.apply_startup_snapshot(snap0);

    let mut calls: u32 = 0;
    leaf_pull_via_intermediate(&mut l1, &mut m, &intake, &mut calls);
    assert_eq!(l1.observe().version_id, VersionId(1));
    let calls_after_first = calls;
    assert!(calls_after_first >= 1);

    leaf_pull_via_intermediate(&mut l2, &mut m, &intake, &mut calls);
    assert_eq!(l2.observe().version_id, VersionId(1));
    // the second leaf's walk over the same chain is served from cache alone;
    // the one extra call is the miss past the head of the chain, which is
    // never negatively cached
    assert_eq!(calls, calls_after_first + 1);
}

#[test]
fn s4_dropped_notice_is_recovered_by_polling() {
    let mut db = ServerDb::default();
    let snap0 = db.get_snapshot();
    db.apply_version(ver(1, vec![Update::Put(s("a"), s("1"))]));
    let intake = FakeIntake::new(s("intake"), db);

    let mut m = CachingIntermediate::new(s("inter"));
    m.apply_startup_snapshot(intake_snapshot(&intake));
    let mut leaf = DebugLeaf::new(s("leaf"));
    leaf.apply_startup_snapshot(snap0);

    // the notice M would broadcast is dropped: the leaf hears nothing, but
    // its next periodic poll still walks the chain
    let mut calls: u32 = 0;
    leaf_pull_via_intermediate(&mut leaf, &mut m, &intake, &mut calls);
    let view = leaf.observe();
    assert_eq!(view.version_id, VersionId(1));
    assert_eq!(view.data.get(&s("a")), Some(s("1")));
}

#[test]
fn s5_late_join_starts_at_the_head() {
    let mut db = ServerDb::default();
    for i in 1..=5u128 {
        db.apply_version(ver(i, vec![Update::Put(s("k"), i.to_string())]));
    }
    let intake = FakeIntake::new(s("intake"), db);
    let mut m = CachingIntermediate::new(s("inter"));
    m.apply_startup_snapshot(intake_snapshot(&intake));

    let mut leaf = DebugLeaf::new(s("leaf"));
    leaf.apply_startup_snapshot(m.answer_snapshot());
    let mut calls: u32 = 0;
    leaf_pull_via_intermediate(&mut leaf, &mut m, &intake, &mut calls);

    let view = leaf.observe();
    assert_eq!(view.version_id, VersionId(5));
    assert!(view.data.eq_map(&intake_snapshot(&intake).data));
    assert_eq!(view.data.get(&s("k")), Some(s("5")));
}

#[test]
fn s6_fan_out_agreement() {
    let mut db = ServerDb::default();
    let snap0 = db.get_snapshot();
    db.apply_version(ver(1, vec![Update::Put(s("a"), s("1")), Update::Put(s("b"), s("2"))]));
    db.apply_version(ver(2, vec![Update::Delete(s("b")), Update::Put(s("c"), s("3"))]));
    let intake = FakeIntake::new(s("intake"), db);
    let mut m = CachingIntermediate::new(s("inter"));
    m.apply_startup_snapshot(intake_snapshot(&intake));

    let mut leaves = vec![
        DebugLeaf::new(s("l1")),
        DebugLeaf::new(s("l2")),
        DebugLeaf::new(s("l3")),
    ];
    leaves[0].apply_startup_snapshot(snap0.dup());
    leaves[1].apply_startup_snapshot(snap0);
    leaves[2].apply_startup_snapshot(m.answer_snapshot());

    let mut calls: u32 = 0;
    for leaf in leaves.iter_mut() {
        leaf_pull_via_intermediate(leaf, &mut m, &intake, &mut calls);
    }

    let v1 = leaves[0].observe();
    let v2 = leaves[1].observe();
    let v3 = leaves[2].observe();
    assert_eq!(v1.version_id, v2.version_id);
    assert_eq!(v2.version_id, v3.version_id);
    assert!(v1.data.eq_map(&v2.data));
    assert!(v2.data.eq_map(&v3.data));
    assert_eq!(v1.data.get(&s("a")), Some(s("1")));
    assert_eq!(v1.data.get(&s("b")), None);
    assert_eq!(v1.data.get(&s("c")), Some(s("3")));
}

#[test]
fn served_children_match_the_authority() {
    let mut up = ServerDb::default();
    let first_parent = up.get_current_version_id();
    up.apply_version(ver(1, vec![Update::Put(s("a"), s("1"))]));
    up.apply_version(ver(2, vec![Update::Put(s("a"), s("2"))]));

    let mut m = CachingIntermediate::new(s("inter"));
    // a miss: fetched from upstream, cached under the requested parent
    let v = m.serve_child_from(first_parent, &up).expect("the authority knows a child");
    assert_eq!(v.version_id, VersionId(1));
    // a hit: served from cache, identical to what the authority would answer
    let v = m.serve_child_from(first_parent, &up).expect("the cache knows it now");
    assert_eq!(v.version_id, VersionId(1));
    let auth = up.get_child_version(first_parent).expect("authoritative child");
    assert_eq!(v.version_id, auth.version_id);
    // past the head of the chain the reply is empty, and is not cached
    assert!(m.serve_child_from(VersionId(2), &up).is_none());
    assert!(matches!(m.plan_child_request(VersionId(2)), ChildAnswer::AskUpstream(_)));
}

#[test]
fn duplicate_notices_change_nothing() {
    let mut db = ServerDb::default();
    let snap0 = db.get_snapshot();
    db.apply_version(ver(1, vec![Update::Put(s("a"), s("1"))]));
    let intake = FakeIntake::new(s("intake"), db);

    let mut leaf = DebugLeaf::new(s("leaf"));
    leaf.apply_startup_snapshot(snap0);
    leaf_pull_from_intake(&mut leaf, &intake);
    let before = leaf.observe();

    // two duplicate notices arrive: each triggers one more pull
    leaf_pull_from_intake(&mut leaf, &intake);
    leaf_pull_from_intake(&mut leaf, &intake);
    let after = leaf.observe();
    assert_eq!(after.version_id, before.version_id);
    assert!(after.data.eq_map(&before.data));
}

#[test]
fn pull_converges_on_quiescent_upstream() {
    let mut up = ServerDb::default();
    let snap0 = up.get_snapshot();
    up.apply_version(ver(1, vec![Update::Put(s("x"), s("1"))]));
    up.apply_version(ver(2, vec![Update::Put(s("y"), s("2"))]));
    up.apply_version(ver(3, vec![Update::Delete(s("x"))]));

    let mut down = ServerDb::default();
    down.apply_snapshot(snap0);
    sync_from(&mut down, &up);

    assert_eq!(down.get_current_version_id(), up.get_current_version_id());
    assert!(down.get_snapshot().data.eq_map(&up.get_snapshot().data));

    // syncing again after quiescence is a no-op
    sync_from(&mut down, &up);
    assert_eq!(down.get_current_version_id(), VersionId(3));
    assert_eq!(down.get_snapshot().data.get(&s("y")), Some(s("2")));
    assert_eq!(down.get_snapshot().data.get(&s("x")), None);
}

#[test]
fn catch_up_converges_leaf_and_intermediate() {
    let mut up = ServerDb::default();
    up.apply_version(ver(1, vec![Update::Put(s("a"), s("1"))]));
    let up_snap = up.get_snapshot();
    up.apply_version(ver(2, vec![Update::Put(s("a"), s("2"))]));

    let mut leaf = DebugLeaf::new(s("leaf"));
    leaf.apply_startup_snapshot(up_snap.dup());
    leaf.catch_up(&up);
    assert_eq!(leaf.observe().version_id, VersionId(2));
    assert_eq!(leaf.observe().data.get(&s("a")), Some(s("2")));

    let mut m = CachingIntermediate::new(s("inter"));
    m.apply_startup_snapshot(up_snap);
    m.catch_up(&up);
    assert_eq!(m.current_version_id(), VersionId(2));
    assert_eq!(m.answer_snapshot().data.get(&s("a")), Some(s("2")));
}
