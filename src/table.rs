use vstd::prelude::*;

use crate::ids::Key;

verus! {

/// A finite map held as a list of entries with pairwise distinct keys.
#[verifier::reject_recursive_types(K)]
pub struct Table<K: Key, V> {
    entries: Vec<(K, V)>,
    contents: Ghost<Map<K::V, V>>,
}

impl<K: Key, V> View for Table<K, V> {
    type V = Map<K::V, V>;

    closed spec fn view(&self) -> Map<K::V, V> {
        self.contents@
    }
}

impl<K: Key, V> Table<K, V> {
    /// The entries name each key of the map once, with its value.
    pub closed spec fn wf(&self) -> bool {
        &&& forall|i: int, j: int|
            0 <= i < j < self.entries@.len() ==> self.entries@[i].0@ != self.entries@[j].0@
        &&& forall|i: int|
            0 <= i < self.entries@.len() ==> #[trigger] self.contents@.contains_key(
                self.entries@[i].0@,
            ) && self.contents@[self.entries@[i].0@] == self.entries@[i].1
        &&& forall|k: K::V|
            #[trigger] self.contents@.contains_key(k) ==> exists|i: int|
                0 <= i < self.entries@.len() && self.entries@[i].0@ == k
    }

    pub fn new() -> (r: Self)
        ensures
            r.wf(),
            r@ == Map::<K::V, V>::empty(),
    {
        Table { entries: Vec::new(), contents: Ghost(Map::empty()) }
    }

    /// The position of `k` among the entries, if it has one.
    fn position(&self, k: &K) -> (r: Option<usize>)
        requires
            self.wf(),
        ensures
            match r {
                Some(i) => i < self.entries@.len() && self.entries@[i as int].0@ == k@,
                None => !self@.contains_key(k@),
            },
    {
        let mut i: usize = 0;
        while i < self.entries.len()
            invariant
                self.wf(),
                i <= self.entries@.len(),
                forall|j: int| 0 <= j < i ==> self.entries@[j].0@ != k@,
            decreases self.entries@.len() - i,
        {
            if self.entries[i].0.same(k) {
                return Some(i);
            }
            i = i + 1;
        }
        None
    }

    pub fn contains(&self, k: &K) -> (r: bool)
        requires
            self.wf(),
        ensures
            r == self@.contains_key(k@),
    {
        self.position(k).is_some()
    }

    pub fn get(&self, k: &K) -> (r: Option<&V>)
        requires
            self.wf(),
        ensures
            match r {
                Some(v) => self@.contains_key(k@) && self@[k@] == *v,
                None => !self@.contains_key(k@),
            },
    {
        match self.position(k) {
            Some(i) => {
                assert(self.contents@.contains_key(self.entries@[i as int].0@));
                Some(&self.entries[i].1)
            },
            None => None,
        }
    }

    /// Binds `k` to `v`, replacing any value that it had.
    pub fn insert(&mut self, k: K, v: V)
        requires
            old(self).wf(),
        ensures
            final(self).wf(),
            final(self)@ == old(self)@.insert(k@, v),
    {
        let ghost m = self.contents@.insert(k@, v);
        match self.position(&k) {
            Some(i) => {
                let ghost before = self.entries@;
                self.entries.set(i, (k, v));
                self.contents = Ghost(m);
                assert forall|a: int, b: int|
                    0 <= a < b < self.entries@.len() implies self.entries@[a].0@
                    != self.entries@[b].0@ by {
                    assert(before[a].0@ != before[b].0@);
                }
                assert forall|a: int| 0 <= a < self.entries@.len() implies #[trigger] m.contains_key(
                    self.entries@[a].0@,
                ) && m[self.entries@[a].0@] == self.entries@[a].1 by {
                    if a != i {
                        assert(old(self).contents@.contains_key(before[a].0@));
                    }
                }
                assert forall|x: K::V| #[trigger] m.contains_key(x) implies exists|j: int|
                    0 <= j < self.entries@.len() && self.entries@[j].0@ == x by {
                    if x != k@ {
                        let j = choose|j: int| 0 <= j < before.len() && before[j].0@ == x;
                        assert(self.entries@[j].0@ == x);
                    } else {
                        assert(self.entries@[i as int].0@ == x);
                    }
                }
            },
            None => {
                self.entries.push((k, v));
                self.contents = Ghost(m);
                let n = self.entries.len() - 1;
                assert forall|a: int, b: int|
                    0 <= a < b < self.entries@.len() implies self.entries@[a].0@
                    != self.entries@[b].0@ by {
                    if b == n {
                        assert(old(self).contents@.contains_key(old(self).entries@[a].0@));
                    }
                }
                assert forall|a: int| 0 <= a < self.entries@.len() implies #[trigger] m.contains_key(
                    self.entries@[a].0@,
                ) && m[self.entries@[a].0@] == self.entries@[a].1 by {
                    if a != n {
                        assert(old(self).contents@.contains_key(old(self).entries@[a].0@));
                    }
                }
                assert forall|x: K::V| #[trigger] m.contains_key(x) implies exists|j: int|
                    0 <= j < self.entries@.len() && self.entries@[j].0@ == x by {
                    if x == k@ {
                        assert(self.entries@[n as int].0@ == x);
                    } else {
                        let j = choose|j: int| 0 <= j < old(self).entries@.len() && old(self).entries@[j].0@ == x;
                        assert(self.entries@[j].0@ == x);
                    }
                }
            },
        }
    }

    /// Unbinds `k`, returning the value that it had.
    pub fn remove(&mut self, k: &K) -> (r: Option<V>)
        requires
            old(self).wf(),
        ensures
            final(self).wf(),
            final(self)@ == old(self)@.remove(k@),
            match r {
                Some(v) => old(self)@.contains_key(k@) && old(self)@[k@] == v,
                None => !old(self)@.contains_key(k@),
            },
    {
        match self.position(k) {
            Some(i) => {
                let ghost before = self.entries@;
                let ghost m = self.contents@.remove(k@);
                let (_, v) = self.entries.remove(i);
                self.contents = Ghost(m);
                assert forall|a: int, b: int|
                    0 <= a < b < self.entries@.len() implies self.entries@[a].0@
                    != self.entries@[b].0@ by {
                    let a0 = if a < i { a } else { a + 1 };
                    let b0 = if b < i { b } else { b + 1 };
                    assert(self.entries@[a] == before[a0]);
                    assert(self.entries@[b] == before[b0]);
                }
                assert forall|a: int| 0 <= a < self.entries@.len() implies #[trigger] m.contains_key(
                    self.entries@[a].0@,
                ) && m[self.entries@[a].0@] == self.entries@[a].1 by {
                    let a0 = if a < i { a } else { a + 1 };
                    assert(self.entries@[a] == before[a0]);
                    assert(before[i as int].0@ == k@);
                    assert(before[a0].0@ != before[i as int].0@);
                    assert(old(self).contents@.contains_key(before[a0].0@));
                }
                assert forall|x: K::V| #[trigger] m.contains_key(x) implies exists|j: int|
                    0 <= j < self.entries@.len() && self.entries@[j].0@ == x by {
                    let j = choose|j: int| 0 <= j < before.len() && before[j].0@ == x;
                    assert(j != i);
                    if j < i {
                        assert(self.entries@[j].0@ == x);
                    } else {
                        assert(self.entries@[j - 1].0@ == x);
                    }
                }
                Some(v)
            },
            None => {
                assert(self.contents@.remove(k@) =~= self.contents@);
                None
            },
        }
    }
}

} // verus!
