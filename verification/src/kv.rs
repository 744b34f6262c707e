//! A small key-value table keyed by login strings, used for the user store
//! and for the in-flight registration ticket table. Entries are kept in a
//! vector with pairwise-distinct keys; the abstract value is a map from the
//! key's characters to the stored value.

use vstd::prelude::*;

verus! {

/// The map denoted by an association list, later entries taking precedence
/// (well-formed tables have distinct keys, so precedence never matters).
pub open spec fn assoc_map<V>(s: Seq<(String, V)>) -> Map<Seq<char>, V>
    decreases s.len(),
{
    if s.len() == 0 {
        Map::empty()
    } else {
        assoc_map(s.drop_last()).insert(s.last().0@, s.last().1)
    }
}

/// All keys of the association list are pairwise distinct.
pub open spec fn unique_keys<V>(s: Seq<(String, V)>) -> bool {
    forall|i: int, j: int| 0 <= i < j < s.len() ==> s[i].0@ != s[j].0@
}

proof fn lemma_assoc_map_absent<V>(s: Seq<(String, V)>, k: Seq<char>)
    requires
        forall|i: int| 0 <= i < s.len() ==> s[i].0@ != k,
    ensures
        !assoc_map(s).contains_key(k),
    decreases s.len(),
{
    if s.len() > 0 {
        lemma_assoc_map_absent(s.drop_last(), k);
    }
}

proof fn lemma_assoc_map_index<V>(s: Seq<(String, V)>, i: int)
    requires
        unique_keys(s),
        0 <= i < s.len(),
    ensures
        assoc_map(s).contains_key(s[i].0@),
        assoc_map(s)[s[i].0@] == s[i].1,
    decreases s.len(),
{
    if i == s.len() - 1 {
    } else {
        lemma_assoc_map_index(s.drop_last(), i);
    }
}

proof fn lemma_assoc_map_push<V>(s: Seq<(String, V)>, p: (String, V))
    ensures
        assoc_map(s.push(p)) == assoc_map(s).insert(p.0@, p.1),
{
    assert(s.push(p).drop_last() =~= s);
    assert(s.push(p).last() == p);
}

proof fn lemma_assoc_map_update<V>(s: Seq<(String, V)>, i: int, p: (String, V))
    requires
        unique_keys(s),
        0 <= i < s.len(),
        s[i].0@ == p.0@,
    ensures
        assoc_map(s.update(i, p)) == assoc_map(s).insert(p.0@, p.1),
    decreases s.len(),
{
    let s2 = s.update(i, p);
    if i == s.len() - 1 {
        assert(s2.drop_last() =~= s.drop_last());
        assert(assoc_map(s2) =~= assoc_map(s).insert(p.0@, p.1));
    } else {
        assert(s2.drop_last() =~= s.drop_last().update(i, p));
        lemma_assoc_map_update(s.drop_last(), i, p);
        assert(s2.last() == s.last());
        assert(s.last().0@ != p.0@);
        assert(assoc_map(s2) =~= assoc_map(s).insert(p.0@, p.1));
    }
}

proof fn lemma_assoc_map_remove<V>(s: Seq<(String, V)>, i: int)
    requires
        unique_keys(s),
        0 <= i < s.len(),
    ensures
        assoc_map(s.remove(i)) == assoc_map(s).remove(s[i].0@),
    decreases s.len(),
{
    let k = s[i].0@;
    let s2 = s.remove(i);
    if i == s.len() - 1 {
        assert(s2 =~= s.drop_last());
        assert(forall|j: int| 0 <= j < s.drop_last().len() ==> s.drop_last()[j].0@ != k);
        lemma_assoc_map_absent(s.drop_last(), k);
        assert(assoc_map(s2) =~= assoc_map(s).remove(k));
    } else {
        assert(s2.drop_last() =~= s.drop_last().remove(i));
        lemma_assoc_map_remove(s.drop_last(), i);
        assert(s2.last() == s.last());
        assert(s.last().0@ != k);
        assert(assoc_map(s2) =~= assoc_map(s).remove(k));
    }
}

/// A table of values keyed by strings with pairwise-distinct keys.
#[derive(Debug)]
#[verifier::reject_recursive_types(V)]
pub struct KvTable<V> {
    pairs: Vec<(String, V)>,
}

impl<V> View for KvTable<V> {
    type V = Map<Seq<char>, V>;

    closed spec fn view(&self) -> Map<Seq<char>, V> {
        assoc_map(self.pairs@)
    }
}

impl<V> KvTable<V> {
    /// Distinct keys; established by the constructor and kept by every
    /// operation.
    pub closed spec fn wf(&self) -> bool {
        unique_keys(self.pairs@)
    }

    /// The empty table.
    pub fn new() -> (r: KvTable<V>)
        ensures
            r.wf(),
            r@ == Map::<Seq<char>, V>::empty(),
    {
        KvTable { pairs: Vec::new() }
    }

    fn find_index(&self, key: &String) -> (r: Option<usize>)
        requires
            self.wf(),
        ensures
            match r {
                Some(i) => i < self.pairs@.len() && self.pairs@[i as int].0@ == key@
                    && self@.contains_key(key@) && self@[key@] == self.pairs@[i as int].1,
                None => !self@.contains_key(key@),
            },
    {
        let mut i: usize = 0;
        while i < self.pairs.len()
            invariant
                self.wf(),
                i <= self.pairs@.len(),
                forall|j: int| 0 <= j < i ==> self.pairs@[j].0@ != key@,
            decreases self.pairs@.len() - i,
        {
            if self.pairs[i].0 == *key {
                proof {
                    lemma_assoc_map_index(self.pairs@, i as int);
                }
                return Some(i);
            }
            i = i + 1;
        }
        proof {
            lemma_assoc_map_absent(self.pairs@, key@);
        }
        None
    }

    /// Looks the key up.
    pub fn get(&self, key: &String) -> (r: Option<&V>)
        requires
            self.wf(),
        ensures
            match r {
                Some(v) => self@.contains_key(key@) && *v == self@[key@],
                None => !self@.contains_key(key@),
            },
    {
        match self.find_index(key) {
            Some(i) => Some(&self.pairs[i].1),
            None => None,
        }
    }

    /// Whether the key is present.
    pub fn contains(&self, key: &String) -> (r: bool)
        requires
            self.wf(),
        ensures
            r == self@.contains_key(key@),
    {
        self.find_index(key).is_some()
    }

    /// Inserts a fresh key; refuses (leaving the table unchanged) when the
    /// key is already present.
    pub fn insert_new(&mut self, key: String, value: V) -> (r: bool)
        requires
            old(self).wf(),
        ensures
            final(self).wf(),
            r == !old(self)@.contains_key(key@),
            r ==> final(self)@ == old(self)@.insert(key@, value),
            !r ==> final(self)@ == old(self)@,
    {
        match self.find_index(&key) {
            Some(_) => false,
            None => {
                proof {
                    lemma_assoc_map_push(self.pairs@, (key, value));
                }
                let ghost oldpairs = self.pairs@;
                let ghost k = key@;
                self.pairs.push((key, value));
                assert(unique_keys(self.pairs@)) by {
                    assert forall|j: int| 0 <= j < oldpairs.len() implies oldpairs[j].0@ != k by {
                        if oldpairs[j].0@ == k {
                            lemma_assoc_map_index(oldpairs, j);
                        }
                    }
                    assert(forall|j: int| 0 <= j < oldpairs.len()
                        ==> self.pairs@[j] == oldpairs[j]);
                }
                true
            },
        }
    }

    /// Replaces the value under a present key.
    pub fn update(&mut self, key: &String, value: V) -> (r: bool)
        requires
            old(self).wf(),
        ensures
            final(self).wf(),
            r == old(self)@.contains_key(key@),
            r ==> final(self)@ == old(self)@.insert(key@, value),
            !r ==> final(self)@ == old(self)@,
    {
        match self.find_index(key) {
            Some(i) => {
                let k2 = self.pairs[i].0.clone();
                proof {
                    lemma_assoc_map_update(self.pairs@, i as int, (k2, value));
                }
                let ghost oldpairs = self.pairs@;
                self.pairs.set(i, (k2, value));
                assert(unique_keys(self.pairs@)) by {
                    assert(forall|j: int| 0 <= j < oldpairs.len() && j != i
                        ==> self.pairs@[j] == oldpairs[j]);
                }
                true
            },
            None => false,
        }
    }

    /// Inserts the key, replacing any value already under it.
    pub fn upsert(&mut self, key: String, value: V)
        requires
            old(self).wf(),
        ensures
            final(self).wf(),
            final(self)@ == old(self)@.insert(key@, value),
    {
        match self.find_index(&key) {
            Some(i) => {
                proof {
                    lemma_assoc_map_update(self.pairs@, i as int, (key, value));
                }
                let ghost oldpairs = self.pairs@;
                self.pairs.set(i, (key, value));
                assert(unique_keys(self.pairs@)) by {
                    assert(forall|j: int| 0 <= j < oldpairs.len() && j != i
                        ==> self.pairs@[j] == oldpairs[j]);
                }
            },
            None => {
                proof {
                    lemma_assoc_map_push(self.pairs@, (key, value));
                }
                let ghost oldpairs = self.pairs@;
                let ghost k = key@;
                self.pairs.push((key, value));
                assert(unique_keys(self.pairs@)) by {
                    assert forall|j: int| 0 <= j < oldpairs.len() implies oldpairs[j].0@ != k by {
                        if oldpairs[j].0@ == k {
                            lemma_assoc_map_index(oldpairs, j);
                        }
                    }
                    assert(forall|j: int| 0 <= j < oldpairs.len()
                        ==> self.pairs@[j] == oldpairs[j]);
                }
            },
        }
    }

    /// Removes the key if present.
    pub fn remove(&mut self, key: &String) -> (r: bool)
        requires
            old(self).wf(),
        ensures
            final(self).wf(),
            r == old(self)@.contains_key(key@),
            r ==> final(self)@ == old(self)@.remove(key@),
            !r ==> final(self)@ == old(self)@,
    {
        match self.find_index(key) {
            Some(i) => {
                proof {
                    lemma_assoc_map_remove(self.pairs@, i as int);
                }
                let ghost oldpairs = self.pairs@;
                self.pairs.remove(i);
                assert(unique_keys(self.pairs@)) by {
                    assert(forall|j: int| 0 <= j < i ==> self.pairs@[j] == oldpairs[j]);
                    assert(forall|j: int| i <= j < self.pairs@.len()
                        ==> self.pairs@[j] == oldpairs[j + 1]);
                }
                true
            },
            None => false,
        }
    }
}

} // verus!
