//! A small map keyed by strings, kept as a vector of entries whose keys are
//! pairwise distinct. It backs the cache of connection pools (one per managed
//! database) and the key/value data of the connection secrets.

use vstd::prelude::*;

verus! {

/// A finite map from names to values.
pub struct NamedMap<V> {
    entries: Vec<(String, V)>,
    model: Ghost<Map<Seq<char>, V>>,
}

impl<V> View for NamedMap<V> {
    type V = Map<Seq<char>, V>;

    closed spec fn view(&self) -> Map<Seq<char>, V> {
        self.model@
    }
}

impl<V> NamedMap<V> {
    /// The entries' keys are pairwise distinct, and the entries are exactly
    /// the map's key/value pairs.
    pub closed spec fn wf(&self) -> bool {
        &&& forall|i: int, j: int|
            0 <= i < j < self.entries@.len() ==> #[trigger] self.entries@[i].0@
                != #[trigger] self.entries@[j].0@
        &&& forall|i: int|
            0 <= i < self.entries@.len() ==> self.model@.contains_key(
                #[trigger] self.entries@[i].0@,
            ) && self.model@[self.entries@[i].0@] == self.entries@[i].1
        &&& forall|k: Seq<char>|
            #[trigger] self.model@.contains_key(k) ==> exists|i: int|
                0 <= i < self.entries@.len() && #[trigger] self.entries@[i].0@ == k
    }

    /// An empty map.
    pub fn new() -> (m: Self)
        ensures
            m.wf(),
            m@ == Map::<Seq<char>, V>::empty(),
    {
        NamedMap { entries: Vec::new(), model: Ghost(Map::empty()) }
    }

    /// The position of the entry with the given key, if there is one.
    fn position(&self, key: &String) -> (r: Option<usize>)
        requires
            self.wf(),
        ensures
            match r {
                Some(i) => i < self.entries@.len() && self.entries@[i as int].0@ == key@,
                None => !self@.contains_key(key@),
            },
    {
        let mut i: usize = 0;
        while i < self.entries.len()
            invariant
                self.wf(),
                i <= self.entries@.len(),
                forall|j: int| 0 <= j < i ==> self.entries@[j].0@ != key@,
            decreases self.entries@.len() - i,
        {
            if self.entries[i].0 == *key {
                return Some(i);
            }
            i = i + 1;
        }
        None
    }

    /// Whether the map has an entry for `key`.
    pub fn contains_key(&self, key: &String) -> (r: bool)
        requires
            self.wf(),
        ensures
            r == self@.contains_key(key@),
    {
        self.position(key).is_some()
    }

    /// The value stored under `key`, if any.
    pub fn get(&self, key: &String) -> (r: Option<&V>)
        requires
            self.wf(),
        ensures
            match r {
                Some(v) => self@.contains_key(key@) && *v == self@[key@],
                None => !self@.contains_key(key@),
            },
    {
        match self.position(key) {
            Some(i) => Some(&self.entries[i].1),
            None => None,
        }
    }

    /// Store `value` under `key`, handing back the value it replaces.
    pub fn insert(&mut self, key: String, value: V) -> (r: Option<V>)
        requires
            old(self).wf(),
        ensures
            final(self).wf(),
            final(self)@ == old(self)@.insert(key@, value),
            match r {
                Some(v) => old(self)@.contains_key(key@) && v == old(self)@[key@],
                None => !old(self)@.contains_key(key@),
            },
    {
        let ghost k = key@;
        let ghost new_model = self.model@.insert(k, value);
        match self.position(&key) {
            Some(i) => {
                let (old_key, old_value) = self.entries.remove(i);
                self.entries.insert(i, (old_key, value));
                self.model = Ghost(new_model);
                assert forall|j: int, l: int|
                    0 <= j < l < self.entries@.len() implies #[trigger] self.entries@[j].0@
                    != #[trigger] self.entries@[l].0@ by {
                    assert(old(self).entries@[j].0@ != old(self).entries@[l].0@);
                }
                assert forall|j: int| 0 <= j < self.entries@.len() implies self.model@.contains_key(
                    #[trigger] self.entries@[j].0@,
                ) && self.model@[self.entries@[j].0@] == self.entries@[j].1 by {
                    if j != i {
                        assert(old(self).entries@[j].0@ != old(self).entries@[i as int].0@);
                    }
                }
                assert forall|kk: Seq<char>| #[trigger]
                    self.model@.contains_key(kk) implies exists|j: int|
                    0 <= j < self.entries@.len() && #[trigger] self.entries@[j].0@ == kk by {
                    if kk != k {
                        let j = choose|j: int|
                            0 <= j < old(self).entries@.len() && #[trigger] old(
                                self,
                            ).entries@[j].0@ == kk;
                        assert(self.entries@[j].0@ == kk);
                    } else {
                        assert(self.entries@[i as int].0@ == kk);
                    }
                }
                Some(old_value)
            },
            None => {
                self.entries.push((key, value));
                self.model = Ghost(new_model);
                let ghost n = self.entries@.len() - 1;
                assert forall|j: int, l: int|
                    0 <= j < l < self.entries@.len() implies #[trigger] self.entries@[j].0@
                    != #[trigger] self.entries@[l].0@ by {
                    if l < n {
                        assert(old(self).entries@[j].0@ != old(self).entries@[l].0@);
                    } else {
                        assert(old(self).model@.contains_key(old(self).entries@[j].0@));
                    }
                }
                assert forall|j: int| 0 <= j < self.entries@.len() implies self.model@.contains_key(
                    #[trigger] self.entries@[j].0@,
                ) && self.model@[self.entries@[j].0@] == self.entries@[j].1 by {
                    if j < n {
                        assert(old(self).model@.contains_key(old(self).entries@[j].0@));
                    }
                }
                assert forall|kk: Seq<char>| #[trigger]
                    self.model@.contains_key(kk) implies exists|j: int|
                    0 <= j < self.entries@.len() && #[trigger] self.entries@[j].0@ == kk by {
                    if kk != k {
                        let j = choose|j: int|
                            0 <= j < old(self).entries@.len() && #[trigger] old(
                                self,
                            ).entries@[j].0@ == kk;
                        assert(self.entries@[j].0@ == kk);
                    } else {
                        assert(self.entries@[n].0@ == kk);
                    }
                }
                None
            },
        }
    }

    /// Take the entry for `key` out of the map, handing back its value.
    pub fn remove(&mut self, key: &String) -> (r: Option<V>)
        requires
            old(self).wf(),
        ensures
            final(self).wf(),
            final(self)@ == old(self)@.remove(key@),
            match r {
                Some(v) => old(self)@.contains_key(key@) && v == old(self)@[key@],
                None => !old(self)@.contains_key(key@),
            },
    {
        let ghost k = key@;
        match self.position(key) {
            Some(i) => {
                let (_old_key, old_value) = self.entries.remove(i);
                self.model = Ghost(self.model@.remove(k));
                let ghost olde = old(self).entries@;
                assert forall|j: int| 0 <= j < self.entries@.len() implies #[trigger] self.entries@[j]
                    == (if j < i {
                    olde[j]
                } else {
                    olde[j + 1]
                }) by {}
                assert forall|j: int, l: int|
                    0 <= j < l < self.entries@.len() implies #[trigger] self.entries@[j].0@
                    != #[trigger] self.entries@[l].0@ by {
                    let jj = if j < i {
                        j
                    } else {
                        j + 1
                    };
                    let ll = if l < i {
                        l
                    } else {
                        l + 1
                    };
                    assert(self.entries@[j] == olde[jj]);
                    assert(self.entries@[l] == olde[ll]);
                    assert(olde[jj].0@ != olde[ll].0@);
                }
                assert forall|j: int| 0 <= j < self.entries@.len() implies self.model@.contains_key(
                    #[trigger] self.entries@[j].0@,
                ) && self.model@[self.entries@[j].0@] == self.entries@[j].1 by {
                    let jj = if j < i {
                        j
                    } else {
                        j + 1
                    };
                    assert(self.entries@[j] == olde[jj]);
                    assert(olde[jj].0@ != olde[i as int].0@);
                    assert(old(self).model@.contains_key(olde[jj].0@));
                }
                assert forall|kk: Seq<char>| #[trigger]
                    self.model@.contains_key(kk) implies exists|j: int|
                    0 <= j < self.entries@.len() && #[trigger] self.entries@[j].0@ == kk by {
                    let jj = choose|jj: int| 0 <= jj < olde.len() && #[trigger] olde[jj].0@ == kk;
                    assert(jj != i);
                    let j = if jj < i {
                        jj
                    } else {
                        jj - 1
                    };
                    assert(self.entries@[j] == olde[jj]);
                }
                Some(old_value)
            },
            None => {
                assert(self.model@.remove(k) =~= self.model@);
                None
            },
        }
    }

    /// The keys of the map, each once.
    pub fn keys(&self) -> (r: Vec<String>)
        requires
            self.wf(),
        ensures
            forall|i: int, j: int| 0 <= i < j < r@.len() ==> #[trigger] r@[i]@ != #[trigger] r@[j]@,
            forall|k: Seq<char>|
                self@.contains_key(k) <==> exists|i: int| 0 <= i < r@.len() && #[trigger] r@[i]@ == k,
    {
        let mut r: Vec<String> = Vec::new();
        let mut i: usize = 0;
        while i < self.entries.len()
            invariant
                self.wf(),
                i <= self.entries@.len(),
                r@.len() == i,
                forall|j: int| 0 <= j < i ==> #[trigger] r@[j]@ == self.entries@[j].0@,
            decreases self.entries@.len() - i,
        {
            r.push(self.entries[i].0.clone());
            i = i + 1;
        }
        assert forall|a: int, b: int| 0 <= a < b < r@.len() implies r@[a]@ != r@[b]@ by {
            assert(self.entries@[a].0@ != self.entries@[b].0@);
        }
        assert forall|k: Seq<char>| self@.contains_key(k) implies exists|j: int|
            0 <= j < r@.len() && #[trigger] r@[j]@ == k by {
            let j = choose|j: int| 0 <= j < self.entries@.len() && #[trigger] self.entries@[j].0@ == k;
            assert(r@[j]@ == k);
        }
        assert forall|k: Seq<char>|
            (exists|j: int| 0 <= j < r@.len() && #[trigger] r@[j]@ == k) implies self@.contains_key(
            k,
        ) by {
            let j = choose|j: int| 0 <= j < r@.len() && #[trigger] r@[j]@ == k;
            assert(self.model@.contains_key(self.entries@[j].0@));
        }
        r
    }

    /// The entries of the map, each key once, each with the value stored under it.
    pub fn entries(&self) -> (r: &Vec<(String, V)>)
        requires
            self.wf(),
        ensures
            forall|i: int, j: int|
                0 <= i < j < r@.len() ==> #[trigger] r@[i].0@ != #[trigger] r@[j].0@,
            forall|i: int|
                0 <= i < r@.len() ==> self@.contains_key(#[trigger] r@[i].0@) && self@[r@[i].0@]
                    == r@[i].1,
            forall|k: Seq<char>|
                self@.contains_key(k) ==> exists|i: int| 0 <= i < r@.len() && #[trigger] r@[i].0@ == k,
    {
        &self.entries
    }
}

} // verus!
