use vstd::prelude::*;

verus! {

/// A finite map from names to values, kept as two vectors of equal length
/// whose entries at the same index belong together. No name occurs twice.
pub struct Registry<V> {
    keys: Vec<String>,
    values: Vec<V>,
}

impl<V> View for Registry<V> {
    type V = Map<Seq<char>, V>;

    closed spec fn view(&self) -> Map<Seq<char>, V> {
        Map::new(
            |k: Seq<char>| exists|i: int| self.has_index(k, i),
            |k: Seq<char>| self.values@[choose|i: int| self.has_index(k, i)],
        )
    }
}

impl<V> Registry<V> {
    /// The two vectors have one length and no name occurs twice.
    pub closed spec fn wf(&self) -> bool {
        &&& self.keys@.len() == self.values@.len()
        &&& forall|i: int, j: int|
            #![trigger self.keys@[i], self.keys@[j]]
            0 <= i < self.keys@.len() && 0 <= j < self.keys@.len() && i != j ==> self.keys@[i]@
                != self.keys@[j]@
    }

    spec fn has_index(&self, k: Seq<char>, i: int) -> bool {
        0 <= i < self.keys@.len() && self.keys@[i]@ == k
    }

    proof fn lemma_at(&self, k: Seq<char>, i: int)
        requires
            self.wf(),
            self.has_index(k, i),
        ensures
            self@.contains_key(k),
            self@[k] == self.values@[i],
    {
        let j = choose|j: int| self.has_index(k, j);
        assert(self.has_index(k, j));
        if j != i {
            assert(self.keys@[i]@ != self.keys@[j]@);
        }
    }

    /// A registry is equal to a map `m` when every stored pair is in `m`
    /// and every name of `m` is stored.
    proof fn lemma_view_is(&self, m: Map<Seq<char>, V>)
        requires
            self.wf(),
            forall|i: int|
                0 <= i < self.keys@.len() ==> #[trigger] m.contains_key(self.keys@[i]@) && m[self.keys@[i]@]
                    == self.values@[i],
            forall|k: Seq<char>| #[trigger] m.contains_key(k) ==> exists|i: int| self.has_index(k, i),
        ensures
            self@ == m,
    {
        assert forall|k: Seq<char>| #[trigger] self@.contains_key(k) implies m.contains_key(k) && m[k]
            == self@[k] by {
            let i = choose|i: int| self.has_index(k, i);
            self.lemma_at(k, i);
            assert(m.contains_key(self.keys@[i]@));
        }
        assert forall|k: Seq<char>| #[trigger] m.contains_key(k) implies self@.contains_key(k) by {
            let i = choose|i: int| self.has_index(k, i);
            self.lemma_at(k, i);
        }
        assert(self@ =~= m);
    }

    /// An empty registry.
    pub fn new() -> (r: Self)
        ensures
            r.wf(),
            r@ == Map::<Seq<char>, V>::empty(),
    {
        let r = Registry { keys: Vec::new(), values: Vec::new() };
        assert(r@ =~= Map::<Seq<char>, V>::empty());
        r
    }

    fn find(&self, key: &String) -> (r: Option<usize>)
        requires
            self.wf(),
        ensures
            r matches Some(i) ==> self.has_index(key@, i as int),
            r is None ==> forall|i: int| !self.has_index(key@, i),
    {
        let mut i: usize = 0;
        while i < self.keys.len()
            invariant
                self.wf(),
                0 <= i <= self.keys@.len(),
                forall|j: int| 0 <= j < i ==> self.keys@[j]@ != key@,
            decreases self.keys@.len() - i,
        {
            if self.keys[i] == *key {
                return Some(i);
            }
            i += 1;
        }
        None
    }

    /// Whether `key` is stored.
    pub fn contains_key(&self, key: &String) -> (b: bool)
        requires
            self.wf(),
        ensures
            b == self@.contains_key(key@),
    {
        match self.find(key) {
            Some(i) => {
                proof {
                    self.lemma_at(key@, i as int);
                }
                true
            },
            None => false,
        }
    }

    /// The value stored under `key`, if any.
    pub fn get(&self, key: &String) -> (r: Option<&V>)
        requires
            self.wf(),
        ensures
            r matches Some(v) ==> self@.contains_key(key@) && *v == self@[key@],
            r is None ==> !self@.contains_key(key@),
    {
        match self.find(key) {
            Some(i) => {
                proof {
                    self.lemma_at(key@, i as int);
                }
                Some(&self.values[i])
            },
            None => None,
        }
    }

    /// Stores `value` under `key`, replacing what was stored there.
    pub fn insert(&mut self, key: String, value: V)
        requires
            old(self).wf(),
        ensures
            final(self).wf(),
            final(self)@ == old(self)@.insert(key@, value),
    {
        let ghost old_self = *self;
        let ghost m = old_self@.insert(key@, value);
        match self.find(&key) {
            Some(i) => {
                self.values.set(i, value);
                proof {
                    assert forall|j: int| 0 <= j < self.keys@.len() implies #[trigger] m.contains_key(
                        self.keys@[j]@,
                    ) && m[self.keys@[j]@] == self.values@[j] by {
                        if j != i {
                            old_self.lemma_at(self.keys@[j]@, j);
                        }
                    }
                    assert forall|k: Seq<char>| #[trigger] m.contains_key(k) implies exists|j: int|
                        self.has_index(k, j) by {
                        if k != key@ {
                            let j = choose|j: int| old_self.has_index(k, j);
                            assert(self.has_index(k, j));
                        } else {
                            assert(self.has_index(k, i as int));
                        }
                    }
                    self.lemma_view_is(m);
                }
            },
            None => {
                let ghost n = self.keys@.len() as int;
                self.keys.push(key);
                self.values.push(value);
                proof {
                    assert(self.keys@[n]@ == key@);
                    assert forall|j: int| 0 <= j < self.keys@.len() implies #[trigger] m.contains_key(
                        self.keys@[j]@,
                    ) && m[self.keys@[j]@] == self.values@[j] by {
                        if j != n {
                            assert(self.keys@[j] == old_self.keys@[j]);
                            assert(!old_self.has_index(key@, j));
                            old_self.lemma_at(self.keys@[j]@, j);
                        }
                    }
                    assert forall|k: Seq<char>| #[trigger] m.contains_key(k) implies exists|j: int|
                        self.has_index(k, j) by {
                        if k != key@ {
                            let j = choose|j: int| old_self.has_index(k, j);
                            assert(self.keys@[j] == old_self.keys@[j]);
                            assert(self.has_index(k, j));
                        } else {
                            assert(self.has_index(k, n));
                        }
                    }
                    assert forall|a: int, b: int|
                        0 <= a < self.keys@.len() && 0 <= b < self.keys@.len() && a != b implies
                        #[trigger] self.keys@[a]@ != #[trigger] self.keys@[b]@ by {
                        if a == n {
                            assert(!old_self.has_index(key@, b));
                        } else if b == n {
                            assert(!old_self.has_index(key@, a));
                        } else {
                            assert(old_self.keys@[a]@ != old_self.keys@[b]@);
                        }
                    }
                    self.lemma_view_is(m);
                }
            },
        }
    }

    /// Takes out the value stored under `key`, if any.
    pub fn remove(&mut self, key: &String) -> (r: Option<V>)
        requires
            old(self).wf(),
        ensures
            final(self).wf(),
            final(self)@ == old(self)@.remove(key@),
            r matches Some(v) ==> old(self)@.contains_key(key@) && v == old(self)@[key@],
            r is None ==> !old(self)@.contains_key(key@),
    {
        let ghost old_self = *self;
        let ghost m = old_self@.remove(key@);
        match self.find(key) {
            Some(i) => {
                proof {
                    old_self.lemma_at(key@, i as int);
                    old_self.keys@.remove_ensures(i as int);
                    old_self.values@.remove_ensures(i as int);
                }
                self.keys.remove(i);
                let v = self.values.remove(i);
                proof {
                    let ii = i as int;
                    assert forall|a: int, b: int|
                        0 <= a < self.keys@.len() && 0 <= b < self.keys@.len() && a != b implies
                        #[trigger] self.keys@[a]@ != #[trigger] self.keys@[b]@ by {
                        let oa = if a < ii { a } else { a + 1 };
                        let ob = if b < ii { b } else { b + 1 };
                        assert(self.keys@[a] == old_self.keys@[oa]);
                        assert(self.keys@[b] == old_self.keys@[ob]);
                        assert(old_self.keys@[oa]@ != old_self.keys@[ob]@);
                    }
                    assert forall|j: int| 0 <= j < self.keys@.len() implies #[trigger] m.contains_key(
                        self.keys@[j]@,
                    ) && m[self.keys@[j]@] == self.values@[j] by {
                        let oj = if j < ii { j } else { j + 1 };
                        assert(self.keys@[j] == old_self.keys@[oj]);
                        assert(self.values@[j] == old_self.values@[oj]);
                        assert(old_self.keys@[oj]@ != old_self.keys@[ii]@);
                        old_self.lemma_at(old_self.keys@[oj]@, oj);
                    }
                    assert forall|k: Seq<char>| #[trigger] m.contains_key(k) implies exists|j: int|
                        self.has_index(k, j) by {
                        let oj = choose|j: int| old_self.has_index(k, j);
                        assert(old_self.has_index(k, oj));
                        assert(oj != ii);
                        let j = if oj < ii { oj } else { oj - 1 };
                        assert(self.keys@[j] == old_self.keys@[oj]);
                        assert(self.has_index(k, j));
                    }
                    self.lemma_view_is(m);
                }
                Some(v)
            },
            None => {
                proof {
                    assert(!old_self@.contains_key(key@));
                    assert(m =~= old_self@);
                }
                None
            },
        }
    }
}

} // verus!
