//! A small map keyed by text, kept as two parallel lists in insertion
//! order with no key occurring twice.

use vstd::prelude::*;

verus! {

/// Map from text keys to values of type `V`.
#[derive(Debug)]
pub struct StringMap<V> {
    keys: Vec<String>,
    values: Vec<V>,
}

impl<V> StringMap<V> {
    /// The two lists have one length and no key occurs twice.
    pub closed spec fn wf(&self) -> bool {
        &&& self.keys@.len() == self.values@.len()
        &&& forall|i: int, j: int|
            0 <= i < j < self.keys@.len() ==> self.keys@[i]@ != self.keys@[j]@
    }

    /// Number of entries.
    pub closed spec fn count(&self) -> nat {
        self.keys@.len()
    }

    /// Key of the `i`-th entry.
    pub closed spec fn key(&self, i: int) -> Seq<char> {
        self.keys@[i]@
    }

    /// Value of the `i`-th entry.
    pub closed spec fn value(&self, i: int) -> V {
        self.values@[i]
    }

    /// Some entry has key `k`.
    pub open spec fn has(&self, k: Seq<char>) -> bool {
        exists|i: int| 0 <= i < self.count() && self.key(i) == k
    }

    /// Position of the entry with key `k`.
    pub open spec fn position(&self, k: Seq<char>) -> int {
        choose|i: int| 0 <= i < self.count() && self.key(i) == k
    }

    /// The map as a mathematical map.
    pub open spec fn view(&self) -> Map<Seq<char>, V> {
        Map::new(|k: Seq<char>| self.has(k), |k: Seq<char>| self.value(self.position(k)))
    }

    /// In a well-formed map, positions and keys determine each other.
    pub proof fn lemma_entries(&self)
        requires
            self.wf(),
        ensures
            forall|i: int|
                0 <= i < self.count() ==> self@.contains_key(#[trigger] self.key(i))
                    && self.position(self.key(i)) == i && self@[self.key(i)] == self.value(i),
            forall|i: int, j: int|
                0 <= i < self.count() && 0 <= j < self.count() && i != j ==> self.key(i)
                    != self.key(j),
            forall|k: Seq<char>| #[trigger]
                self@.contains_key(k) ==> 0 <= self.position(k) < self.count() && self.key(
                    self.position(k),
                ) == k,
    {
        assert forall|i: int| 0 <= i < self.count() implies self@.contains_key(
            #[trigger] self.key(i),
        ) && self.position(self.key(i)) == i && self@[self.key(i)] == self.value(i) by {
            let k = self.key(i);
            assert(self.has(k));
            let p = self.position(k);
            if p < i {
                assert(self.keys@[p]@ != self.keys@[i]@);
            } else if i < p {
                assert(self.keys@[i]@ != self.keys@[p]@);
            }
        }
        assert forall|i: int, j: int|
            0 <= i < self.count() && 0 <= j < self.count() && i != j implies self.key(i)
            != self.key(j) by {
            if i < j {
                assert(self.keys@[i]@ != self.keys@[j]@);
            } else {
                assert(self.keys@[j]@ != self.keys@[i]@);
            }
        }
    }

    /// An empty map.
    pub fn new() -> (r: Self)
        ensures
            r.wf(),
            r.count() == 0,
            r@ == Map::<Seq<char>, V>::empty(),
    {
        let r = StringMap { keys: Vec::new(), values: Vec::new() };
        assert(r@ =~= Map::<Seq<char>, V>::empty());
        r
    }

    /// Number of entries.
    pub fn len(&self) -> (r: usize)
        requires
            self.wf(),
        ensures
            r == self.count(),
    {
        self.keys.len()
    }

    /// Position of the entry with the given key, if there is one.
    pub fn find(&self, key: &str) -> (r: Option<usize>)
        requires
            self.wf(),
        ensures
            match r {
                Some(i) => i < self.count() && self.key(i as int) == key@ && self@.contains_key(
                    key@,
                ) && self.position(key@) == i,
                None => !self@.contains_key(key@),
            },
    {
        let wanted = key.to_owned();
        let mut i: usize = 0;
        while i < self.keys.len()
            invariant
                self.wf(),
                i <= self.keys@.len(),
                wanted@ == key@,
                forall|j: int| 0 <= j < i ==> self.keys@[j]@ != key@,
            decreases self.keys@.len() - i,
        {
            if self.keys[i] == wanted {
                proof {
                    self.lemma_entries();
                    assert(self.key(i as int) == key@);
                }
                return Some(i);
            }
            i = i + 1;
        }
        None
    }

    /// Key of the `i`-th entry.
    pub fn key_at(&self, i: usize) -> (r: &String)
        requires
            self.wf(),
            i < self.count(),
        ensures
            r@ == self.key(i as int),
    {
        &self.keys[i]
    }

    /// Value of the `i`-th entry.
    pub fn value_at(&self, i: usize) -> (r: &V)
        requires
            self.wf(),
            i < self.count(),
        ensures
            *r == self.value(i as int),
    {
        &self.values[i]
    }

    /// Replaces the value of the `i`-th entry.
    pub fn set_value(&mut self, i: usize, value: V)
        requires
            old(self).wf(),
            i < old(self).count(),
        ensures
            final(self).wf(),
            final(self).count() == old(self).count(),
            forall|j: int| 0 <= j < old(self).count() ==> final(self).key(j) == old(self).key(j),
            forall|j: int|
                0 <= j < old(self).count() && j != i ==> final(self).value(j) == old(self).value(j),
            final(self).value(i as int) == value,
            final(self)@ == old(self)@.insert(old(self).key(i as int), value),
    {
        proof {
            self.lemma_entries();
        }
        self.values.set(i, value);
        proof {
            self.lemma_entries();
            let target = old(self)@.insert(old(self).key(i as int), value);
            assert forall|k: Seq<char>| self@.contains_key(k) == target.contains_key(k) by {
                if old(self).has(k) {
                    let p = old(self).position(k);
                    assert(self.key(p) == k);
                }
                if self.has(k) {
                    let p = self.position(k);
                    assert(old(self).key(p) == k);
                }
            }
            assert forall|k: Seq<char>| self@.contains_key(k) implies self@[k] == target[k] by {
                let p = self.position(k);
                assert(old(self).key(p) == k);
            }
            assert(self@ =~= target);
        }
    }

    /// Binds `key` to `value`, replacing any earlier binding of the key.
    pub fn insert(&mut self, key: String, value: V)
        requires
            old(self).wf(),
        ensures
            final(self).wf(),
            final(self)@ == old(self)@.insert(key@, value),
            old(self)@.contains_key(key@) ==> final(self).count() == old(self).count(),
            !old(self)@.contains_key(key@) ==> final(self).count() == old(self).count() + 1,
    {
        match self.find(key.as_str()) {
            Some(i) => {
                self.set_value(i, value);
            },
            None => {
                proof {
                    self.lemma_entries();
                }
                self.keys.push(key);
                self.values.push(value);
                proof {
                    let n = old(self).count() as int;
                    assert forall|i: int, j: int| 0 <= i < j < self.keys@.len() implies self.keys@[i]@
                        != self.keys@[j]@ by {
                        if j == n {
                            assert(old(self).key(i) == self.keys@[i]@);
                            assert(old(self)@.contains_key(old(self).key(i)));
                        } else {
                            assert(old(self).keys@[i]@ != old(self).keys@[j]@);
                        }
                    }
                    self.lemma_entries();
                    let target = old(self)@.insert(key@, value);
                    assert(self.key(n) == key@);
                    assert forall|k: Seq<char>| self@.contains_key(k) == target.contains_key(
                        k,
                    ) by {
                        if old(self).has(k) {
                            let p = old(self).position(k);
                            assert(self.key(p) == k);
                        }
                        if self.has(k) {
                            let p = self.position(k);
                            if p < n {
                                assert(old(self).key(p) == k);
                            }
                        }
                    }
                    assert forall|k: Seq<char>| self@.contains_key(k) implies self@[k]
                        == target[k] by {
                        let p = self.position(k);
                        if p < n {
                            assert(old(self).key(p) == k);
                        }
                    }
                    assert(self@ =~= target);
                }
            },
        }
    }

    /// Removes and returns the most recently added entry.
    pub fn pop(&mut self) -> (r: Option<(String, V)>)
        requires
            old(self).wf(),
        ensures
            final(self).wf(),
            match r {
                Some((k, v)) => {
                    &&& old(self).count() > 0
                    &&& final(self).count() == old(self).count() - 1
                    &&& k@ == old(self).key(old(self).count() - 1)
                    &&& v == old(self).value(old(self).count() - 1)
                    &&& forall|j: int|
                        0 <= j < final(self).count() ==> final(self).key(j) == old(self).key(j)
                            && final(self).value(j) == old(self).value(j)
                    &&& old(self)@.contains_key(k@)
                    &&& old(self)@[k@] == v
                    &&& final(self)@ == old(self)@.remove(k@)
                },
                None => old(self).count() == 0 && final(self)@ == old(self)@,
            },
    {
        if self.keys.len() == 0 {
            return None;
        }
        proof {
            self.lemma_entries();
        }
        let k = self.keys.pop().unwrap();
        let v = self.values.pop().unwrap();
        proof {
            let n = old(self).count() - 1;
            assert(old(self).key(n) == k@);
            assert forall|i: int, j: int| 0 <= i < j < self.keys@.len() implies self.keys@[i]@
                != self.keys@[j]@ by {
                assert(old(self).keys@[i]@ != old(self).keys@[j]@);
            }
            self.lemma_entries();
            let target = old(self)@.remove(k@);
            assert forall|q: Seq<char>| self@.contains_key(q) == target.contains_key(q) by {
                if old(self).has(q) && q != k@ {
                    let p = old(self).position(q);
                    assert(self.key(p) == q);
                }
                if self.has(q) {
                    let p = self.position(q);
                    assert(old(self).key(p) == q);
                }
            }
            assert forall|q: Seq<char>| self@.contains_key(q) implies self@[q] == target[q] by {
                let p = self.position(q);
                assert(old(self).key(p) == q);
            }
            assert(self@ =~= target);
        }
        Some((k, v))
    }
}

} // verus!
