use vstd::prelude::*;

use crate::worker::MonitorId;

verus! {

/// A map keyed by monitor identity, held as a vector of pairs whose keys are distinct.
pub struct IdMap<V> {
    entries: Vec<(MonitorId, V)>,
}

impl<V> IdMap<V> {
    /// Whether some slot holds key `k`.
    pub closed spec fn has(&self, k: Seq<char>) -> bool {
        exists|i: int| 0 <= i < self.entries@.len() && #[trigger] self.entries@[i].0@ == k
    }

    /// The slot that holds key `k`.
    pub closed spec fn slot_of(&self, k: Seq<char>) -> int {
        choose|i: int| 0 <= i < self.entries@.len() && #[trigger] self.entries@[i].0@ == k
    }

    pub closed spec fn view(&self) -> Map<Seq<char>, V> {
        Map::new(|k: Seq<char>| self.has(k), |k: Seq<char>| self.entries@[self.slot_of(k)].1)
    }

    /// No key occurs twice.
    pub closed spec fn wf(&self) -> bool {
        forall|i: int, j: int|
            0 <= i < self.entries@.len() && 0 <= j < self.entries@.len() && i != j
                ==> #[trigger] self.entries@[i].0@ != #[trigger] self.entries@[j].0@
    }

    proof fn lemma_slot(&self, i: int)
        requires
            self.wf(),
            0 <= i < self.entries@.len(),
        ensures
            self.has(self.entries@[i].0@),
            self.slot_of(self.entries@[i].0@) == i,
            self@.contains_key(self.entries@[i].0@),
            self@[self.entries@[i].0@] == self.entries@[i].1,
    {
        let k = self.entries@[i].0@;
        assert(self.has(k));
        let j = self.slot_of(k);
        assert(self.entries@[j].0@ == k);
    }

    pub fn new() -> (r: Self)
        ensures
            r.wf(),
            r@ == Map::<Seq<char>, V>::empty(),
    {
        let r = IdMap { entries: Vec::new() };
        assert(r@ =~= Map::<Seq<char>, V>::empty());
        r
    }

    fn find(&self, id: &MonitorId) -> (r: Option<usize>)
        ensures
            r matches Some(i) ==> i < self.entries@.len() && self.entries@[i as int].0@ == id@,
            r is None ==> !self.has(id@),
    {
        let mut i: usize = 0;
        while i < self.entries.len()
            invariant
                i <= self.entries@.len(),
                forall|j: int| 0 <= j < i ==> #[trigger] self.entries@[j].0@ != id@,
            decreases self.entries@.len() - i,
        {
            if self.entries[i].0 == *id {
                return Some(i);
            }
            i = i + 1;
        }
        None
    }

    pub fn contains(&self, id: &MonitorId) -> (r: bool)
        requires
            self.wf(),
        ensures
            r == self@.contains_key(id@),
    {
        self.find(id).is_some()
    }

    pub fn get(&self, id: &MonitorId) -> (r: Option<&V>)
        requires
            self.wf(),
        ensures
            r is Some <==> self@.contains_key(id@),
            r matches Some(v) ==> *v == self@[id@],
    {
        match self.find(id) {
            Some(i) => {
                proof {
                    self.lemma_slot(i as int);
                }
                Some(&self.entries[i].1)
            },
            None => None,
        }
    }

    /// Sets the value of `id`, replacing any value it had.
    pub fn insert(&mut self, id: MonitorId, v: V)
        requires
            old(self).wf(),
        ensures
            final(self).wf(),
            final(self)@ == old(self)@.insert(id@, v),
    {
        let ghost k = id@;
        let ghost pre = *self;
        match self.find(&id) {
            Some(i) => {
                self.entries.set(i, (id, v));
                proof {
                    assert forall|k2: Seq<char>| self.has(k2) <==> pre.has(k2) by {
                        if pre.has(k2) {
                            let j = pre.slot_of(k2);
                            assert(self.entries@[j].0@ == k2);
                        }
                        if self.has(k2) {
                            let j = self.slot_of(k2);
                            assert(pre.entries@[j].0@ == k2);
                        }
                    }
                    assert forall|k2: Seq<char>| #[trigger]
                        self@.contains_key(k2) && k2 != k implies self@[k2] == pre@[k2] by {
                        let j = self.slot_of(k2);
                        pre.lemma_slot(j);
                    }
                    self.lemma_slot(i as int);
                    assert(self@ =~= pre@.insert(k, v));
                }
            },
            None => {
                self.entries.push((id, v));
                proof {
                    let n = pre.entries@.len() as int;
                    assert forall|k2: Seq<char>| self.has(k2) <==> (pre.has(k2) || k2 == k) by {
                        if pre.has(k2) {
                            let j = pre.slot_of(k2);
                            assert(self.entries@[j].0@ == k2);
                        }
                        if k2 == k {
                            assert(self.entries@[n].0@ == k2);
                        }
                        if self.has(k2) && k2 != k {
                            let j = self.slot_of(k2);
                            assert(pre.entries@[j].0@ == k2);
                        }
                    }
                    assert forall|k2: Seq<char>| #[trigger]
                        self@.contains_key(k2) && k2 != k implies self@[k2] == pre@[k2] by {
                        let j = self.slot_of(k2);
                        pre.lemma_slot(j);
                    }
                    self.lemma_slot(n);
                    assert(self@ =~= pre@.insert(k, v));
                }
            },
        }
    }

    /// Removes `id` and its value, if present.
    pub fn remove(&mut self, id: &MonitorId)
        requires
            old(self).wf(),
        ensures
            final(self).wf(),
            final(self)@ == old(self)@.remove(id@),
    {
        let ghost k = id@;
        let ghost pre = *self;
        match self.find(id) {
            Some(i) => {
                let _ = self.entries.remove(i);
                proof {
                    let ii = i as int;
                    assert forall|k2: Seq<char>| self.has(k2) <==> (pre.has(k2) && k2 != k) by {
                        if pre.has(k2) && k2 != k {
                            let j = pre.slot_of(k2);
                            if j < ii {
                                assert(self.entries@[j].0@ == k2);
                            } else {
                                assert(self.entries@[j - 1].0@ == k2);
                            }
                        }
                        if self.has(k2) {
                            let j = self.slot_of(k2);
                            if j < ii {
                                assert(pre.entries@[j].0@ == k2);
                            } else {
                                assert(pre.entries@[j + 1].0@ == k2);
                            }
                        }
                    }
                    assert forall|k2: Seq<char>| #[trigger]
                        self@.contains_key(k2) implies self@[k2] == pre@[k2] by {
                        let j = self.slot_of(k2);
                        if j < ii {
                            pre.lemma_slot(j);
                        } else {
                            pre.lemma_slot(j + 1);
                        }
                    }
                    assert(self@ =~= pre@.remove(k));
                }
            },
            None => {
                assert(self@ =~= pre@.remove(k));
            },
        }
    }
}

} // verus!
