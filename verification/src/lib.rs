//! A hierarchical data-replication fabric: a rooted tree of nodes propagates
//! a log of versioned key/value mutations from a single intake at the root,
//! through caching intermediates, down to leaf subscribers. Every node keeps
//! a locally consistent materialised view; divergence is bounded only by lag.

mod update;
mod version;
mod kvmap;
mod version_index;
mod snapshot;
mod serverdb;
mod protocol;
mod sync;
mod ids;
mod intake;
mod intermediate;
mod leaf;
mod laws;

pub use update::Update;
pub use update::UpdateModel;
pub use update::apply_update_model;
pub use update::apply_updates_model;
pub use version::VersionId;
pub use version::Version;
pub use version::VersionModel;
pub use kvmap::KvMap;
pub use version_index::VersionIndex;
pub use snapshot::Snapshot;
pub use snapshot::SnapshotModel;
pub use serverdb::ServerDb;
pub use serverdb::DbModel;
pub use serverdb::empty_db_model;
pub use serverdb::apply_version_model;
pub use serverdb::cache_version_model;
pub use serverdb::apply_snapshot_model;
pub use serverdb::snapshot_model_of;
pub use serverdb::chain_apply_model;
pub use serverdb::lemma_chain_apply_push;
pub use protocol::Request;
pub use protocol::Reply;
pub use protocol::Notice;
pub use protocol::child_reply_ok;
pub use protocol::request_answered;
pub use protocol::answer_request;
pub use sync::sync_ok;
pub use sync::lemma_resync_is_no_op;
pub use sync::sync_from;
pub use sync::chain_ids;
pub use sync::chain_fresh;
pub use sync::lemma_fresh_chain_syncs;
pub use intake::FakeIntake;
pub use intake::FAKE_INTAKE_NUM_KEYS;
pub use intake::update_key;
pub use intake::updates_over_keys;
pub use intermediate::CachingIntermediate;
pub use intermediate::ChildAnswer;
pub use intermediate::index_subsumed_by;
pub use intermediate::lemma_cache_hit_is_authoritative;
pub use intermediate::lemma_subsumed_after_cache;
pub use intermediate::lemma_subsumed_after_apply;
pub use leaf::DebugLeaf;
pub use laws::DbOp;
pub use laws::db_op_next;
pub use laws::db_run;
pub use laws::moves_current;
pub use laws::lemma_current_moved_only_by_apply;
pub use laws::lemma_current_change_names_op;
pub use laws::replay_data_model;
pub use laws::lemma_replay_equivalence;
pub use laws::lemma_snapshot_roundtrip;
pub use laws::lemma_version_then_child;
