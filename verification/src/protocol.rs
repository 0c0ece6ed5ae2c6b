use vstd::prelude::*;

use crate::serverdb::DbModel;
use crate::serverdb::ServerDb;
use crate::serverdb::snapshot_model_of;
use crate::snapshot::Snapshot;
use crate::version::Version;
use crate::version::VersionId;

verus! {

/// A request sent upstream. The transport carries the reply path; the reply
/// to `GetSnapshot` is a `Snapshot`, the reply to `GetChildVersion` an
/// `Option<Version>`.
#[derive(Debug, Clone, Copy, PartialEq, Eq, Structural)]
pub enum Request {
    /// Get a recent snapshot.
    GetSnapshot,
    /// Get the child version of the given version. This is used to iterate
    /// down the sequence of versions.
    GetChildVersion(VersionId),
}

/// A reply to a request; the server side sends exactly one per request.
#[derive(Debug)]
pub enum Reply {
    Snapshot(Snapshot),
    ChildVersion(Option<Version>),
}

/// The one-bit hint broadcast downstream that new versions may be available.
/// Not authoritative: the pull protocol is self-correcting.
#[derive(Debug, Clone, Copy, PartialEq, Eq, Structural)]
pub enum Notice {
    NewVersion,
}

/// What a child-version reply from state `m` must be: the recorded child of
/// `p`, or `None` exactly where no child of `p` is recorded.
pub open spec fn child_reply_ok(m: DbModel, p: VersionId, r: Option<Version>) -> bool {
    match r {
        Some(v) => m.versions.contains_key(p) && v@ == m.versions[p],
        None => !m.versions.contains_key(p),
    }
}

/// What a whole reply from state `m` must be: a snapshot that is `m`'s
/// current id and data as one consistent pair, or a child-version reply as
/// `child_reply_ok` says.
pub open spec fn request_answered(m: DbModel, req: Request, r: Reply) -> bool {
    match req {
        Request::GetSnapshot => r matches Reply::Snapshot(s) && s@ == snapshot_model_of(m),
        Request::GetChildVersion(p) => r matches Reply::ChildVersion(c) && child_reply_ok(m, p, c),
    }
}

/// Answer one downstream request straight from a node's local state.
pub fn answer_request(db: &ServerDb, req: &Request) -> (r: Reply)
    ensures
        request_answered(db@, *req, r),
{
    match req {
        Request::GetSnapshot => Reply::Snapshot(db.get_snapshot()),
        Request::GetChildVersion(p) => Reply::ChildVersion(db.get_child_version(*p)),
    }
}

} // verus!
