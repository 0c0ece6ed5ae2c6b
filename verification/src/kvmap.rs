use vstd::prelude::*;

verus! {

/// A string-to-string data mapping materialised as a vector of entries with
/// pairwise-distinct keys. Its view is the mathematical map it denotes.
#[derive(Debug)]
pub struct KvMap {
    entries: Vec<(String, String)>,
}

spec fn keys_distinct(s: Seq<(String, String)>) -> bool {
    forall|i: int, j: int| 0 <= i < j < s.len() ==> s[i].0@ != s[j].0@
}

spec fn seq_has_key(s: Seq<(String, String)>, k: Seq<char>) -> bool {
    exists|i: int| 0 <= i < s.len() && s[i].0@ == k
}

spec fn seq_key_at(s: Seq<(String, String)>, k: Seq<char>) -> int {
    choose|i: int| 0 <= i < s.len() && s[i].0@ == k
}

spec fn map_of(s: Seq<(String, String)>) -> Map<Seq<char>, Seq<char>> {
    Map::new(|k: Seq<char>| seq_has_key(s, k), |k: Seq<char>| s[seq_key_at(s, k)].1@)
}

/// With distinct keys, the entry found at any matching index is the one the
/// map denotes.
proof fn lemma_key_at(s: Seq<(String, String)>, k: Seq<char>, i: int)
    requires
        keys_distinct(s),
        0 <= i < s.len(),
        s[i].0@ == k,
    ensures
        seq_has_key(s, k),
        seq_key_at(s, k) == i,
        map_of(s).contains_key(k),
        map_of(s)[k] == s[i].1@,
{
    assert(seq_has_key(s, k));
    let j = seq_key_at(s, k);
    assert(0 <= j < s.len() && s[j].0@ == k);
    if j < i {
        assert(s[j].0@ != s[i].0@);
    } else if j > i {
        assert(s[i].0@ != s[j].0@);
    }
}

/// Replacing the value at an index whose key matches turns the map into an
/// insertion of that key.
proof fn lemma_update_value(s: Seq<(String, String)>, i: int, e: (String, String))
    requires
        keys_distinct(s),
        0 <= i < s.len(),
        e.0@ == s[i].0@,
    ensures
        keys_distinct(s.update(i, e)),
        map_of(s.update(i, e)) == map_of(s).insert(e.0@, e.1@),
{
    let s2 = s.update(i, e);
    assert(forall|j: int| 0 <= j < s.len() ==> s2[j].0@ == s[j].0@);
    assert(keys_distinct(s2));
    assert forall|kk: Seq<char>| seq_has_key(s2, kk) == seq_has_key(s, kk) by {
        if seq_has_key(s2, kk) {
            let j = choose|j: int| 0 <= j < s2.len() && s2[j].0@ == kk;
            assert(s[j].0@ == kk);
        }
        if seq_has_key(s, kk) {
            let j = choose|j: int| 0 <= j < s.len() && s[j].0@ == kk;
            assert(s2[j].0@ == kk);
        }
    }
    assert forall|kk: Seq<char>| #[trigger] map_of(s2).contains_key(kk) implies map_of(s2)[kk]
        == map_of(s).insert(e.0@, e.1@)[kk] by {
        if kk == e.0@ {
            lemma_key_at(s2, kk, i);
        } else {
            let j = seq_key_at(s, kk);
            assert(0 <= j < s.len() && s[j].0@ == kk);
            assert(j != i);
            lemma_key_at(s2, kk, j);
            lemma_key_at(s, kk, j);
        }
    }
    assert(map_of(s2) =~= map_of(s).insert(e.0@, e.1@));
}

/// Appending an entry with a fresh key turns the map into an insertion of
/// that key.
proof fn lemma_push_new(s: Seq<(String, String)>, e: (String, String))
    requires
        keys_distinct(s),
        !seq_has_key(s, e.0@),
    ensures
        keys_distinct(s.push(e)),
        map_of(s.push(e)) == map_of(s).insert(e.0@, e.1@),
{
    let s2 = s.push(e);
    assert(forall|j: int| 0 <= j < s.len() ==> s2[j] == s[j]);
    assert(s2[s.len() as int] == e);
    assert forall|i: int, j: int| 0 <= i < j < s2.len() implies s2[i].0@ != s2[j].0@ by {
        if j < s.len() {
        } else {
            assert(s2[i].0@ == s[i].0@);
            assert(s[i].0@ != e.0@);
        }
    }
    assert forall|kk: Seq<char>| #[trigger] map_of(s2).contains_key(kk) implies map_of(s2)[kk]
        == map_of(s).insert(e.0@, e.1@)[kk] by {
        if kk == e.0@ {
            lemma_key_at(s2, kk, s.len() as int);
        } else {
            let j = choose|j: int| 0 <= j < s2.len() && s2[j].0@ == kk;
            assert(j < s.len());
            assert(s[j].0@ == kk);
            lemma_key_at(s2, kk, j);
            lemma_key_at(s, kk, j);
        }
    }
    assert forall|kk: Seq<char>| map_of(s).insert(e.0@, e.1@).contains_key(kk) implies map_of(
        s2,
    ).contains_key(kk) by {
        if kk == e.0@ {
            assert(s2[s.len() as int].0@ == kk);
            assert(seq_has_key(s2, kk));
        } else {
            let j = choose|j: int| 0 <= j < s.len() && s[j].0@ == kk;
            assert(s2[j].0@ == kk);
            assert(seq_has_key(s2, kk));
        }
    }
    assert(map_of(s2) =~= map_of(s).insert(e.0@, e.1@));
}

/// Removing the entry at a matching index turns the map into a removal of
/// that key.
proof fn lemma_remove_at(s: Seq<(String, String)>, i: int)
    requires
        keys_distinct(s),
        0 <= i < s.len(),
    ensures
        keys_distinct(s.remove(i)),
        map_of(s.remove(i)) == map_of(s).remove(s[i].0@),
{
    let s2 = s.remove(i);
    s.remove_ensures(i);
    let k = s[i].0@;
    assert forall|a: int, b: int| 0 <= a < b < s2.len() implies s2[a].0@ != s2[b].0@ by {
        let a0: int = if a < i { a } else { a + 1 };
        let b0: int = if b < i { b } else { b + 1 };
        assert(s2[a] == s[a0]);
        assert(s2[b] == s[b0]);
    }
    assert forall|kk: Seq<char>| #[trigger] map_of(s2).contains_key(kk) implies map_of(s).remove(
        k,
    ).contains_key(kk) && map_of(s2)[kk] == map_of(s)[kk] by {
        let j = choose|j: int| 0 <= j < s2.len() && s2[j].0@ == kk;
        let j0: int = if j < i { j } else { j + 1 };
        assert(s2[j] == s[j0]);
        assert(j0 != i);
        if kk == k {
            if j0 < i {
                assert(s[j0].0@ != s[i].0@);
            } else {
                assert(s[i].0@ != s[j0].0@);
            }
        }
        lemma_key_at(s2, kk, j);
        lemma_key_at(s, kk, j0);
    }
    assert forall|kk: Seq<char>| map_of(s).remove(k).contains_key(kk) implies map_of(
        s2,
    ).contains_key(kk) by {
        let j0 = choose|j: int| 0 <= j < s.len() && s[j].0@ == kk;
        assert(j0 != i);
        if j0 < i {
            assert(s2[j0] == s[j0]);
            assert(seq_has_key(s2, kk));
        } else {
            assert(s2[j0 - 1] == s[j0]);
            assert(seq_has_key(s2, kk));
        }
    }
    assert(map_of(s2) =~= map_of(s).remove(k));
}

impl View for KvMap {
    type V = Map<Seq<char>, Seq<char>>;

    closed spec fn view(&self) -> Map<Seq<char>, Seq<char>> {
        map_of(self.entries@)
    }
}

/// The index of the first entry whose key equals `k`, if any.
fn find_key(es: &Vec<(String, String)>, k: &String) -> (r: Option<usize>)
    ensures
        match r {
            Some(i) => i < es@.len() && es@[i as int].0@ == k@,
            None => !seq_has_key(es@, k@),
        },
{
    let n = es.len();
    for i in 0..n
        invariant
            n == es.len(),
            forall|j: int| 0 <= j < i ==> es@[j].0@ != k@,
    {
        if es[i].0 == *k {
            return Some(i);
        }
    }
    None
}

impl KvMap {
    #[verifier::type_invariant]
    spec fn wf(&self) -> bool {
        keys_distinct(self.entries@)
    }

    /// The empty mapping.
    pub fn new() -> (r: KvMap)
        ensures
            r@ == Map::<Seq<char>, Seq<char>>::empty(),
    {
        let r = KvMap { entries: Vec::new() };
        proof {
            assert(r@ =~= Map::<Seq<char>, Seq<char>>::empty());
        }
        r
    }

    /// Look a key up; the reply is exactly what the map holds for it.
    pub fn get(&self, k: &String) -> (r: Option<String>)
        ensures
            match r {
                Some(v) => self@.contains_key(k@) && v@ == self@[k@],
                None => !self@.contains_key(k@),
            },
    {
        proof {
            use_type_invariant(self);
        }
        match find_key(&self.entries, k) {
            Some(i) => {
                proof {
                    lemma_key_at(self.entries@, k@, i as int);
                }
                Some(self.entries[i].1.clone())
            },
            None => None,
        }
    }

    /// Upsert: bind `k` to `v`, overwriting any value that may exist.
    pub fn set(&mut self, k: String, v: String)
        ensures
            final(self)@ == old(self)@.insert(k@, v@),
    {
        proof {
            use_type_invariant(&*self);
        }
        let ghost s0 = self.entries@;
        match find_key(&self.entries, &k) {
            Some(i) => {
                let mut es: Vec<(String, String)> = Vec::new();
                core::mem::swap(&mut es, &mut self.entries);
                let ghost e = (k, v);
                es.set(i, (k, v));
                proof {
                    lemma_update_value(s0, i as int, e);
                }
                self.entries = es;
            },
            None => {
                let mut es: Vec<(String, String)> = Vec::new();
                core::mem::swap(&mut es, &mut self.entries);
                let ghost e = (k, v);
                es.push((k, v));
                proof {
                    lemma_push_new(s0, e);
                }
                self.entries = es;
            },
        }
    }

    /// Delete `k`; deleting an absent key is a no-op.
    pub fn delete(&mut self, k: &String)
        ensures
            final(self)@ == old(self)@.remove(k@),
    {
        proof {
            use_type_invariant(&*self);
        }
        let ghost s0 = self.entries@;
        match find_key(&self.entries, k) {
            Some(i) => {
                let mut es: Vec<(String, String)> = Vec::new();
                core::mem::swap(&mut es, &mut self.entries);
                es.remove(i);
                proof {
                    lemma_remove_at(s0, i as int);
                }
                self.entries = es;
            },
            None => {
                proof {
                    assert(self@ =~= self@.remove(k@));
                }
            },
        }
    }

    /// A deep copy denoting the same mapping.
    pub fn dup(&self) -> (r: KvMap)
        ensures
            r@ == self@,
    {
        proof {
            use_type_invariant(self);
        }
        let mut es: Vec<(String, String)> = Vec::new();
        let n = self.entries.len();
        for i in 0..n
            invariant
                n == self.entries.len(),
                es.len() == i,
                forall|j: int| 0 <= j < i ==> es@[j] == self.entries@[j],
        {
            let e = &self.entries[i];
            es.push((e.0.clone(), e.1.clone()));
        }
        proof {
            assert(es@ =~= self.entries@);
        }
        KvMap { entries: es }
    }

    /// Whether the mapping is empty.
    pub fn is_empty(&self) -> (r: bool)
        ensures
            r == (self@ == Map::<Seq<char>, Seq<char>>::empty()),
    {
        proof {
            use_type_invariant(self);
        }
        let r = self.entries.is_empty();
        proof {
            if self.entries@.len() == 0 {
                assert(self@ =~= Map::<Seq<char>, Seq<char>>::empty());
            } else {
                assert(self@.contains_key(self.entries@[0].0@));
            }
        }
        r
    }

    /// Whether every binding of `self` also stands in `other`.
    pub fn submap_of(&self, other: &KvMap) -> (r: bool)
        ensures
            r == (self@ <= other@),
    {
        proof {
            use_type_invariant(self);
        }
        let n = self.entries.len();
        for i in 0..n
            invariant
                n == self.entries.len(),
                keys_distinct(self.entries@),
                forall|j: int| #![auto]
                    0 <= j < i ==> other@.contains_key(self.entries@[j].0@)
                        && other@[self.entries@[j].0@] == self.entries@[j].1@,
        {
            let e = &self.entries[i];
            match other.get(&e.0) {
                Some(v) => {
                    if !(v == e.1) {
                        proof {
                            lemma_key_at(self.entries@, e.0@, i as int);
                        }
                        return false;
                    }
                },
                None => {
                    proof {
                        lemma_key_at(self.entries@, e.0@, i as int);
                    }
                    return false;
                },
            }
        }
        proof {
            assert forall|kk: Seq<char>| #[trigger] self@.contains_key(kk) implies other@
                .contains_key(kk) && other@[kk] == self@[kk] by {
                let j = seq_key_at(self.entries@, kk);
                lemma_key_at(self.entries@, kk, j);
            }
        }
        true
    }

    /// Whether the two mappings are equal.
    pub fn eq_map(&self, other: &KvMap) -> (r: bool)
        ensures
            r == (self@ == other@),
    {
        let r = self.submap_of(other) && other.submap_of(self);
        proof {
            if r {
                assert(self@ =~= other@);
            }
        }
        r
    }
}

} // verus!
