use vstd::prelude::*;

use crate::ids::mint_version_id;
use crate::ids::version_id_text;
use crate::protocol::Reply;
use crate::protocol::Request;
use crate::protocol::answer_request;
use crate::protocol::request_answered;
use crate::serverdb::DbModel;
use crate::serverdb::ServerDb;
use crate::serverdb::apply_version_model;
use crate::update::Update;
use crate::update::UpdateModel;
use crate::version::Version;
use crate::version::VersionId;
use crate::version::VersionModel;

verus! {

/// Number of keys the demo intake draws its updates from.
pub const FAKE_INTAKE_NUM_KEYS: usize = 2;

/// The root node, where data enters the system to be distributed downward:
/// it owns the authoritative sequence of versions and mints new ones over a
/// small fixed key set filled with pseudo-random data.
pub struct FakeIntake {
    name: String,
    server_db: ServerDb,
    keys: Vec<String>,
}

/// The key an update touches.
pub open spec fn update_key(u: UpdateModel) -> Seq<char> {
    match u {
        UpdateModel::Put(k, _) => k,
        UpdateModel::Delete(k) => k,
    }
}

/// Every update in the sequence touches one of the given keys.
pub open spec fn updates_over_keys(us: Seq<UpdateModel>, keys: Seq<Seq<char>>) -> bool {
    forall|i: int| 0 <= i < us.len() ==> keys.contains(update_key(#[trigger] us[i]))
}

/// Draw a random byte. Nothing holds of the result.
/// Relies on rand::random::<u8>.
#[verifier::external_body]
fn random_byte() -> u8 {
    rand::random::<u8>()
}

/// Draw a random boolean. Nothing holds of the result.
/// Relies on rand::random::<bool>.
#[verifier::external_body]
fn random_flag() -> bool {
    rand::random::<bool>()
}

impl FakeIntake {
    #[verifier::type_invariant]
    spec fn wf(&self) -> bool {
        self.keys@.len() == FAKE_INTAKE_NUM_KEYS
    }

    /// The model of the authoritative node state.
    pub closed spec fn db(&self) -> DbModel {
        self.server_db@
    }

    /// The texts of the fixed key set.
    pub closed spec fn key_texts(&self) -> Seq<Seq<char>> {
        self.keys@.map_values(|s: String| s@)
    }

    /// The node's name, for the operator's eyes only.
    pub closed spec fn name_text(&self) -> Seq<char> {
        self.name@
    }

    /// A fresh intake over the given state, with a freshly minted key set.
    pub fn new(name: String, server_db: ServerDb) -> (r: FakeIntake)
        ensures
            r.db() == server_db@,
            r.name_text() == name@,
    {
        let mut keys: Vec<String> = Vec::new();
        for i in 0..FAKE_INTAKE_NUM_KEYS
            invariant
                keys@.len() == i,
        {
            keys.push(version_id_text(mint_version_id()));
        }
        FakeIntake { name, server_db, keys }
    }

    /// The node's name.
    pub fn name(&self) -> (r: &String)
        ensures
            r@ == self.name_text(),
    {
        &self.name
    }

    /// The authoritative current version id.
    pub fn current_version_id(&self) -> (r: VersionId)
        ensures
            r == self.db().current,
    {
        self.server_db.get_current_version_id()
    }

    /// Serve one downstream request straight from the authoritative state.
    pub fn answer(&self, req: &Request) -> (r: Reply)
        ensures
            request_answered(self.db(), *req, r),
    {
        answer_request(&self.server_db, req)
    }

    /// One random key out of the fixed key set.
    fn random_key(&self) -> (r: String)
        ensures
            self.key_texts().contains(r@),
    {
        proof {
            use_type_invariant(self);
        }
        let b = random_byte();
        let i = (b as usize) % self.keys.len();
        let r = self.keys[i].clone();
        proof {
            assert(self.key_texts()[i as int] == r@);
        }
        r
    }

    /// A random value: the text of a freshly minted token.
    fn random_value(&self) -> (r: String) {
        version_id_text(mint_version_id())
    }

    /// A non-empty batch of random updates over the fixed key set.
    fn random_updates(&self) -> (r: Vec<Update>)
        ensures
            1 <= r@.len() <= 255,
            updates_over_keys(r@.map_values(|u: Update| u@), self.key_texts()),
    {
        let b = random_byte();
        let mut n: usize = b as usize + 1;
        if n > 255 {
            n = 255;
        }
        let mut updates: Vec<Update> = Vec::new();
        for i in 0..n
            invariant
                n <= 255,
                updates@.len() == i,
                updates_over_keys(updates@.map_values(|u: Update| u@), self.key_texts()),
        {
            let key = self.random_key();
            let ghost key_text = key@;
            let ghost pre_us = updates@.map_values(|u: Update| u@);
            if random_flag() {
                updates.push(Update::Put(key, self.random_value()));
            } else {
                updates.push(Update::Delete(key));
            }
            proof {
                let us = updates@.map_values(|u: Update| u@);
                assert(update_key(us[i as int]) == key_text);
                assert forall|j: int| 0 <= j < us.len() implies self.key_texts().contains(
                    update_key(#[trigger] us[j]),
                ) by {
                    if j < i as int {
                        assert(us[j] == pre_us[j]);
                    }
                }
            }
        }
        updates
    }

    /// Mint a fresh version over random updates, apply it to the
    /// authoritative state, and hand back its id for the notice that follows.
    pub fn produce_version(&mut self) -> (r: VersionId)
        ensures
            r.0 != 0,
            final(self).key_texts() == old(self).key_texts(),
            final(self).name_text() == old(self).name_text(),
            exists|us: Seq<UpdateModel>|
                {
                    &&& final(self).db() == apply_version_model(
                        old(self).db(),
                        (VersionModel { version_id: r, updates: us }),
                    )
                    &&& 1 <= us.len() <= 255
                    &&& updates_over_keys(us, old(self).key_texts())
                },
    {
        proof {
            use_type_invariant(&*self);
        }
        let new_id = mint_version_id();
        let updates = self.random_updates();
        let ghost us = updates@.map_values(|u: Update| u@);
        let v = Version { version_id: new_id, updates };
        let ghost vm = v@;
        let mut db = ServerDb::new();
        core::mem::swap(&mut db, &mut self.server_db);
        db.apply_version(v);
        core::mem::swap(&mut db, &mut self.server_db);
        proof {
            assert(vm == (VersionModel { version_id: new_id, updates: us }));
        }
        new_id
    }
}

} // verus!
