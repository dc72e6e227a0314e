use vstd::prelude::*;

use crate::text::same_text;

verus! {

/// A map from class ids to values: one entry per id, in insertion order.
#[derive(Debug)]
pub struct IdMap<T> {
    entries: Vec<(String, T)>,
}

impl<T> IdMap<T> {
    /// The ids, in the order of the entries.
    pub closed spec fn keys(&self) -> Seq<Seq<char>> {
        self.entries@.map_values(|e: (String, T)| e.0@)
    }

    /// The position of the entry for `k`.
    closed spec fn slot(&self, k: Seq<char>) -> int {
        choose|i: int| 0 <= i < self.entries@.len() && self.entries@[i].0@ == k
    }

    /// Each id has one entry.
    pub closed spec fn wf(&self) -> bool {
        self.keys().no_duplicates()
    }

    proof fn lemma_slot(&self, k: Seq<char>, i: int)
        requires
            self.wf(),
            0 <= i < self.entries@.len(),
            self.entries@[i].0@ == k,
        ensures
            self.slot(k) == i,
    {
        let j = self.slot(k);
        assert(self.keys()[i] == k);
        assert(self.keys()[j] == k);
    }
}

impl<T: View> View for IdMap<T> {
    type V = Map<Seq<char>, T::V>;

    closed spec fn view(&self) -> Map<Seq<char>, T::V> {
        Map::new(
            |k: Seq<char>| self.keys().contains(k),
            |k: Seq<char>| self.entries@[self.slot(k)].1@,
        )
    }
}

impl<T: View> IdMap<T> {
    pub fn new() -> (r: Self)
        ensures
            r@ == Map::<Seq<char>, T::V>::empty(),
            r.wf(),
    {
        let r = IdMap { entries: Vec::new() };
        assert(r@ =~= Map::<Seq<char>, T::V>::empty());
        r
    }

    /// The number of ids.
    pub fn len(&self) -> (r: usize)
        requires
            self.wf(),
        ensures
            r as nat == self@.len(),
    {
        proof {
            assert(self@.dom() =~= self.keys().to_set());
            self.keys().unique_seq_to_set();
        }
        self.entries.len()
    }

    /// The views of the values, in insertion order.
    pub closed spec fn ordered_values(&self) -> Seq<T::V> {
        self.entries@.map_values(|e: (String, T)| e.1@)
    }

    /// The entries, one per id, in insertion order.
    pub fn entries(&self) -> (r: &Vec<(String, T)>)
        requires
            self.wf(),
        ensures
            r@.len() == self@.len(),
            r@.map_values(|e: (String, T)| e.1@) == self.ordered_values(),
            forall|i: int| 0 <= i < r@.len() ==> self@.contains_key(#[trigger] r@[i].0@)
                && self@[r@[i].0@] == r@[i].1@,
    {
        proof {
            assert(self@.dom() =~= self.keys().to_set());
            self.keys().unique_seq_to_set();
            assert forall|i: int| 0 <= i < self.entries@.len() implies self@.contains_key(
                #[trigger] self.entries@[i].0@,
            ) && self@[self.entries@[i].0@] == self.entries@[i].1@ by {
                assert(self.keys()[i] == self.entries@[i].0@);
                self.lemma_slot(self.entries@[i].0@, i);
            }
        }
        &self.entries
    }

    /// The position of the entry for `key`.
    fn find(&self, key: &str) -> (r: Option<usize>)
        ensures
            match r {
                Some(i) => i < self.entries@.len() && self.entries@[i as int].0@ == key@,
                None => !self@.contains_key(key@),
            },
    {
        let n = self.entries.len();
        let mut i: usize = 0;
        while i < n
            invariant
                n == self.entries@.len(),
                i <= n,
                forall|j: int| 0 <= j < i ==> self.entries@[j].0@ != key@,
            decreases n - i,
        {
            if same_text(self.entries[i].0.as_str(), key) {
                return Some(i);
            }
            i = i + 1;
        }
        proof {
            if self.keys().contains(key@) {
                let j = choose|j: int| 0 <= j < self.keys().len() && self.keys()[j] == key@;
                assert(self.entries@[j].0@ == key@);
            }
        }
        None
    }

    /// The value stored under `key`.
    pub fn get(&self, key: &str) -> (r: Option<&T>)
        requires
            self.wf(),
        ensures
            match r {
                Some(v) => self@.contains_key(key@) && self@[key@] == v@,
                None => !self@.contains_key(key@),
            },
    {
        match self.find(key) {
            Some(i) => {
                proof {
                    self.lemma_slot(key@, i as int);
                    assert(self.keys()[i as int] == key@);
                }
                Some(&self.entries[i].1)
            },
            None => None,
        }
    }

    /// Stores `value` under `key`, replacing what was stored there.
    pub fn insert(&mut self, key: String, value: T)
        requires
            old(self).wf(),
        ensures
            final(self).wf(),
            final(self)@ == old(self)@.insert(key@, value@),
    {
        let ghost before = *self;
        match self.find(key.as_str()) {
            Some(i) => {
                self.entries.set(i, (key, value));
                proof {
                    let k = self.entries@[i as int].0@;
                    assert(self.keys() =~= before.keys());
                    assert forall|k2: Seq<char>| #[trigger] self@.contains_key(k2) implies self@[k2]
                        == before@.insert(k, value@)[k2] by {
                        let j = before.slot(k2);
                        if k2 == k {
                            assert(self.keys()[i as int] == k);
                            self.lemma_slot(k2, i as int);
                        } else {
                            assert(before.keys()[j] == k2);
                            self.lemma_slot(k2, j);
                        }
                    }
                    assert(before.keys()[i as int] == k);
                    assert(self@.dom() =~= before@.dom().insert(k));
                    assert(self@ =~= before@.insert(k, value@));
                }
            },
            None => {
                self.entries.push((key, value));
                proof {
                    let k = self.entries@.last().0@;
                    assert(self.keys() =~= before.keys().push(k));
                    assert(self.keys().no_duplicates()) by {
                        assert forall|a: int, b: int|
                            0 <= a < self.keys().len() && 0 <= b < self.keys().len() && a != b
                            implies self.keys()[a] != self.keys()[b] by {
                            if a < before.keys().len() && b < before.keys().len() {
                            } else if a < before.keys().len() {
                                assert(before.keys().contains(before.keys()[a]));
                            } else {
                                assert(before.keys().contains(before.keys()[b]));
                            }
                        }
                    }
                    let n = before.entries@.len();
                    assert forall|k2: Seq<char>| #[trigger] self@.contains_key(k2) implies self@[k2]
                        == before@.insert(k, value@)[k2] by {
                        if k2 == k {
                            self.lemma_slot(k2, n as int);
                        } else {
                            let j = before.slot(k2);
                            assert(before.keys().contains(k2)) by {
                                let m = choose|m: int| 0 <= m < self.keys().len() && self.keys()[m] == k2;
                                assert(before.keys()[m] == k2);
                            }
                            assert(before.keys()[j] == k2) by {
                                let m = choose|m: int| 0 <= m < before.keys().len() && before.keys()[m] == k2;
                                assert(before.entries@[m].0@ == k2);
                            }
                            self.lemma_slot(k2, j);
                        }
                    }
                    assert forall|k2: Seq<char>| #[trigger] self.keys().contains(k2) == (before.keys().contains(k2) || k2 == k) by {
                        if self.keys().contains(k2) {
                            let m = choose|m: int| 0 <= m < self.keys().len() && self.keys()[m] == k2;
                            if m < n {
                                assert(before.keys()[m] == k2);
                            }
                        }
                        if before.keys().contains(k2) {
                            let m = choose|m: int| 0 <= m < before.keys().len() && before.keys()[m] == k2;
                            assert(self.keys()[m] == k2);
                        }
                        if k2 == k {
                            assert(self.keys()[n as int] == k2);
                        }
                    }
                    assert(self@.dom() =~= before@.dom().insert(k));
                    assert(self@ =~= before@.insert(k, value@));
                }
            },
        }
    }
}

} // verus!
