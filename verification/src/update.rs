use vstd::prelude::*;

verus! {

/// An atomic mutation of one key in a data mapping.
#[derive(Debug, Clone)]
pub enum Update {
    /// Set a value in the data store, overwriting any value that may exist.
    Put(String, String),
    /// Delete a value from the data store; deleting an absent key is a no-op.
    Delete(String),
}

/// The mathematical shape of an `Update`: key and value as character sequences.
pub ghost enum UpdateModel {
    Put(Seq<char>, Seq<char>),
    Delete(Seq<char>),
}

impl View for Update {
    type V = UpdateModel;

    open spec fn view(&self) -> UpdateModel {
        match self {
            Update::Put(k, v) => UpdateModel::Put(k@, v@),
            Update::Delete(k) => UpdateModel::Delete(k@),
        }
    }
}

/// What one update does to a data mapping: `Put` upserts, `Delete` removes.
pub open spec fn apply_update_model(
    d: Map<Seq<char>, Seq<char>>,
    u: UpdateModel,
) -> Map<Seq<char>, Seq<char>> {
    match u {
        UpdateModel::Put(k, v) => d.insert(k, v),
        UpdateModel::Delete(k) => d.remove(k),
    }
}

/// Applying a sequence of updates to a data mapping, in declared order.
pub open spec fn apply_updates_model(
    d: Map<Seq<char>, Seq<char>>,
    us: Seq<UpdateModel>,
) -> Map<Seq<char>, Seq<char>>
    decreases us.len(),
{
    if us.len() == 0 {
        d
    } else {
        apply_updates_model(apply_update_model(d, us[0]), us.drop_first())
    }
}

/// Appending one update applies it after the rest.
pub proof fn lemma_apply_updates_push(
    d: Map<Seq<char>, Seq<char>>,
    us: Seq<UpdateModel>,
    u: UpdateModel,
)
    ensures
        apply_updates_model(d, us.push(u)) == apply_update_model(apply_updates_model(d, us), u),
    decreases us.len(),
{
    if us.len() == 0 {
        reveal_with_fuel(apply_updates_model, 2);
        assert(us.push(u)[0] == u);
        assert(us.push(u).drop_first() =~= Seq::<UpdateModel>::empty());
        assert(apply_updates_model(d, us.push(u)) == apply_update_model(d, u));
    } else {
        assert(us.push(u)[0] == us[0]);
        assert(us.push(u).drop_first() =~= us.drop_first().push(u));
        lemma_apply_updates_push(apply_update_model(d, us[0]), us.drop_first(), u);
    }
}

impl Update {
    /// A deep copy whose model equals this update's model.
    pub fn dup(&self) -> (r: Update)
        ensures
            r@ == self@,
    {
        match self {
            Update::Put(k, v) => Update::Put(k.clone(), v.clone()),
            Update::Delete(k) => Update::Delete(k.clone()),
        }
    }
}

} // verus!
