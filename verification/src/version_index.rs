use vstd::prelude::*;

use crate::version::Version;
use crate::version::VersionId;
use crate::version::VersionModel;

verus! {

/// A version index: for each parent version id, the child version that
/// advances past it. Materialised as a vector of entries with
/// pairwise-distinct parent ids; its view is the mathematical map.
#[derive(Debug)]
pub struct VersionIndex {
    entries: Vec<(VersionId, Version)>,
}

spec fn parents_distinct(s: Seq<(VersionId, Version)>) -> bool {
    forall|i: int, j: int| 0 <= i < j < s.len() ==> s[i].0 != s[j].0
}

spec fn seq_has_parent(s: Seq<(VersionId, Version)>, p: VersionId) -> bool {
    exists|i: int| 0 <= i < s.len() && s[i].0 == p
}

spec fn seq_parent_at(s: Seq<(VersionId, Version)>, p: VersionId) -> int {
    choose|i: int| 0 <= i < s.len() && s[i].0 == p
}

spec fn index_of(s: Seq<(VersionId, Version)>) -> Map<VersionId, VersionModel> {
    Map::new(|p: VersionId| seq_has_parent(s, p), |p: VersionId| s[seq_parent_at(s, p)].1@)
}

/// With distinct parent ids, the entry found at any matching index is the one
/// the map denotes.
proof fn lemma_parent_at(s: Seq<(VersionId, Version)>, p: VersionId, i: int)
    requires
        parents_distinct(s),
        0 <= i < s.len(),
        s[i].0 == p,
    ensures
        seq_has_parent(s, p),
        seq_parent_at(s, p) == i,
        index_of(s).contains_key(p),
        index_of(s)[p] == s[i].1@,
{
    assert(seq_has_parent(s, p));
    let j = seq_parent_at(s, p);
    assert(0 <= j < s.len() && s[j].0 == p);
    if j < i {
        assert(s[j].0 != s[i].0);
    } else if j > i {
        assert(s[i].0 != s[j].0);
    }
}

/// Replacing the value at an index whose parent id matches turns the map into
/// an insertion under that id.
proof fn lemma_replace_child(s: Seq<(VersionId, Version)>, i: int, e: (VersionId, Version))
    requires
        parents_distinct(s),
        0 <= i < s.len(),
        e.0 == s[i].0,
    ensures
        parents_distinct(s.update(i, e)),
        index_of(s.update(i, e)) == index_of(s).insert(e.0, e.1@),
{
    let s2 = s.update(i, e);
    assert(forall|j: int| 0 <= j < s.len() ==> s2[j].0 == s[j].0);
    assert(parents_distinct(s2));
    assert forall|pp: VersionId| seq_has_parent(s2, pp) == seq_has_parent(s, pp) by {
        if seq_has_parent(s2, pp) {
            let j = choose|j: int| 0 <= j < s2.len() && s2[j].0 == pp;
            assert(s[j].0 == pp);
        }
        if seq_has_parent(s, pp) {
            let j = choose|j: int| 0 <= j < s.len() && s[j].0 == pp;
            assert(s2[j].0 == pp);
        }
    }
    assert forall|pp: VersionId| #[trigger] index_of(s2).contains_key(pp) implies index_of(s2)[pp]
        == index_of(s).insert(e.0, e.1@)[pp] by {
        if pp == e.0 {
            lemma_parent_at(s2, pp, i);
        } else {
            let j = seq_parent_at(s, pp);
            assert(0 <= j < s.len() && s[j].0 == pp);
            assert(j != i);
            lemma_parent_at(s2, pp, j);
            lemma_parent_at(s, pp, j);
        }
    }
    assert(index_of(s2) =~= index_of(s).insert(e.0, e.1@));
}

/// Appending an entry with a fresh parent id turns the map into an insertion
/// under that id.
proof fn lemma_push_child(s: Seq<(VersionId, Version)>, e: (VersionId, Version))
    requires
        parents_distinct(s),
        !seq_has_parent(s, e.0),
    ensures
        parents_distinct(s.push(e)),
        index_of(s.push(e)) == index_of(s).insert(e.0, e.1@),
{
    let s2 = s.push(e);
    assert(forall|j: int| 0 <= j < s.len() ==> s2[j] == s[j]);
    assert(s2[s.len() as int] == e);
    assert forall|i: int, j: int| 0 <= i < j < s2.len() implies s2[i].0 != s2[j].0 by {
        if j < s.len() {
        } else {
            assert(s2[i].0 == s[i].0);
            assert(s[i].0 != e.0);
        }
    }
    assert forall|pp: VersionId| #[trigger] index_of(s2).contains_key(pp) implies index_of(s2)[pp]
        == index_of(s).insert(e.0, e.1@)[pp] by {
        if pp == e.0 {
            lemma_parent_at(s2, pp, s.len() as int);
        } else {
            let j = choose|j: int| 0 <= j < s2.len() && s2[j].0 == pp;
            assert(j < s.len());
            assert(s[j].0 == pp);
            lemma_parent_at(s2, pp, j);
            lemma_parent_at(s, pp, j);
        }
    }
    assert forall|pp: VersionId| index_of(s).insert(e.0, e.1@).contains_key(pp) implies index_of(
        s2,
    ).contains_key(pp) by {
        if pp == e.0 {
            assert(s2[s.len() as int].0 == pp);
            assert(seq_has_parent(s2, pp));
        } else {
            let j = choose|j: int| 0 <= j < s.len() && s[j].0 == pp;
            assert(s2[j].0 == pp);
            assert(seq_has_parent(s2, pp));
        }
    }
    assert(index_of(s2) =~= index_of(s).insert(e.0, e.1@));
}

/// The index of the first entry whose parent id equals `p`, if any.
fn find_parent(es: &Vec<(VersionId, Version)>, p: VersionId) -> (r: Option<usize>)
    ensures
        match r {
            Some(i) => i < es@.len() && es@[i as int].0 == p,
            None => !seq_has_parent(es@, p),
        },
{
    let n = es.len();
    for i in 0..n
        invariant
            n == es.len(),
            forall|j: int| 0 <= j < i ==> es@[j].0 != p,
    {
        if es[i].0.0 == p.0 {
            return Some(i);
        }
    }
    None
}

impl View for VersionIndex {
    type V = Map<VersionId, VersionModel>;

    closed spec fn view(&self) -> Map<VersionId, VersionModel> {
        index_of(self.entries@)
    }
}

impl VersionIndex {
    #[verifier::type_invariant]
    spec fn wf(&self) -> bool {
        parents_distinct(self.entries@)
    }

    /// The empty index.
    pub fn new() -> (r: VersionIndex)
        ensures
            r@ == Map::<VersionId, VersionModel>::empty(),
    {
        let r = VersionIndex { entries: Vec::new() };
        proof {
            assert(r@ =~= Map::<VersionId, VersionModel>::empty());
        }
        r
    }

    /// Record `v` as the child of `parent`, overwriting any recorded child.
    pub fn insert(&mut self, parent: VersionId, v: Version)
        ensures
            final(self)@ == old(self)@.insert(parent, v@),
    {
        proof {
            use_type_invariant(&*self);
        }
        let ghost s0 = self.entries@;
        match find_parent(&self.entries, parent) {
            Some(i) => {
                let mut es: Vec<(VersionId, Version)> = Vec::new();
                core::mem::swap(&mut es, &mut self.entries);
                let ghost e = (parent, v);
                es.set(i, (parent, v));
                proof {
                    lemma_replace_child(s0, i as int, e);
                }
                self.entries = es;
            },
            None => {
                let mut es: Vec<(VersionId, Version)> = Vec::new();
                core::mem::swap(&mut es, &mut self.entries);
                let ghost e = (parent, v);
                es.push((parent, v));
                proof {
                    lemma_push_child(s0, e);
                }
                self.entries = es;
            },
        }
    }

    /// A copy of the recorded child of `parent`, or `None` where none is
    /// recorded.
    pub fn get(&self, parent: VersionId) -> (r: Option<Version>)
        ensures
            match r {
                Some(v) => self@.contains_key(parent) && v@ == self@[parent],
                None => !self@.contains_key(parent),
            },
    {
        proof {
            use_type_invariant(self);
        }
        match find_parent(&self.entries, parent) {
            Some(i) => {
                proof {
                    lemma_parent_at(self.entries@, parent, i as int);
                }
                Some(self.entries[i].1.dup())
            },
            None => None,
        }
    }
}

} // verus!
