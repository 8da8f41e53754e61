//! A small association table from keys to `u64` values, kept free of duplicate
//! keys, whose contents are seen as a finite map.
use vstd::prelude::*;

verus! {

/// Keys that can be compared and copied in executable code in agreement with
/// their view.
pub trait TableKey: View + Sized {
    fn same_key(&self, other: &Self) -> (b: bool)
        ensures
            b == (self@ == other@),
    ;

    fn copy_key(&self) -> (c: Self)
        ensures
            c@ == self@,
    ;
}

/// An association table; each key occurs at most once.
pub struct Table<K> {
    entries: Vec<(K, u64)>,
}

impl<K: TableKey> Table<K> {
    /// No key occurs twice.
    pub closed spec fn wf(&self) -> bool {
        forall|i: int, j: int|
            0 <= i < j < self.entries@.len() ==> (#[trigger] self.entries@[i]).0@
                != (#[trigger] self.entries@[j]).0@
    }

    pub closed spec fn has_key_at(&self, k: K::V, i: int) -> bool {
        0 <= i < self.entries@.len() && self.entries@[i].0@ == k
    }

    /// The contents of the table as a map from key views to values.
    pub closed spec fn contents(&self) -> Map<K::V, u64> {
        Map::new(
            |k: K::V| exists|i: int| self.has_key_at(k, i),
            |k: K::V| self.entries@[choose|i: int| self.has_key_at(k, i)].1,
        )
    }

    proof fn lemma_entry(&self, i: int)
        requires
            self.wf(),
            0 <= i < self.entries@.len(),
        ensures
            self.contents().contains_key(self.entries@[i].0@),
            self.contents()[self.entries@[i].0@] == self.entries@[i].1,
    {
        let k = self.entries@[i].0@;
        assert(self.has_key_at(k, i));
        let j = choose|j: int| self.has_key_at(k, j);
        if j < i {
            assert(self.entries@[j].0@ != self.entries@[i].0@);
        } else if i < j {
            assert(self.entries@[i].0@ != self.entries@[j].0@);
        }
    }

    /// An empty table.
    pub fn new() -> (t: Self)
        ensures
            t.wf(),
            t.contents() == Map::<K::V, u64>::empty(),
    {
        let t = Table { entries: Vec::new() };
        assert(t.contents() =~= Map::<K::V, u64>::empty());
        t
    }

    /// The value stored under `k`, if any.
    pub fn get(&self, k: &K) -> (r: Option<u64>)
        requires
            self.wf(),
        ensures
            r == (if self.contents().contains_key(k@) {
                Some(self.contents()[k@])
            } else {
                None::<u64>
            }),
    {
        let mut i: usize = 0;
        while i < self.entries.len()
            invariant
                self.wf(),
                i <= self.entries@.len(),
                forall|j: int| 0 <= j < i ==> (#[trigger] self.entries@[j]).0@ != k@,
            decreases self.entries@.len() - i,
        {
            if self.entries[i].0.same_key(k) {
                proof {
                    self.lemma_entry(i as int);
                }
                return Some(self.entries[i].1);
            }
            i = i + 1;
        }
        assert(!self.contents().contains_key(k@));
        None
    }

    /// Stores `v` under `k`, replacing an earlier value.
    pub fn insert(&mut self, k: K, v: u64)
        requires
            old(self).wf(),
        ensures
            final(self).wf(),
            final(self).contents() == old(self).contents().insert(k@, v),
    {
        let ghost old_t = *self;
        let mut i: usize = 0;
        let n = self.entries.len();
        while i < n
            invariant
                n == self.entries@.len(),
                *self == old_t,
                old_t == *old(self),
                old_t.wf(),
                i <= n,
                forall|j: int| 0 <= j < i ==> (#[trigger] self.entries@[j]).0@ != k@,
            decreases n - i,
        {
            if self.entries[i].0.same_key(&k) {
                let ghost kv = k@;
                self.entries.set(i, (k, v));
                proof {
                    assert forall|a: int, b: int|
                        0 <= a < b < self.entries@.len() implies (#[trigger] self.entries@[a]).0@
                        != (#[trigger] self.entries@[b]).0@ by {
                        assert(old_t.entries@[a].0@ != old_t.entries@[b].0@);
                    }
                    assert forall|key: K::V|
                        #![trigger self.contents().contains_key(key)]
                        self.contents().contains_key(key) == old_t.contents().insert(
                            kv,
                            v,
                        ).contains_key(key) by {
                        if self.contents().contains_key(key) {
                            let j = choose|j: int| self.has_key_at(key, j);
                            if key != kv {
                                assert(old_t.has_key_at(key, j));
                            }
                        }
                        if old_t.contents().contains_key(key) {
                            let j = choose|j: int| old_t.has_key_at(key, j);
                            assert(self.has_key_at(key, j) || self.has_key_at(key, i as int));
                        }
                        if key == kv {
                            assert(self.has_key_at(key, i as int));
                        }
                    }
                    assert forall|key: K::V| #[trigger]
                        self.contents().contains_key(key) implies self.contents()[key]
                        == old_t.contents().insert(kv, v)[key] by {
                        let j = choose|j: int| self.has_key_at(key, j);
                        self.lemma_entry(j);
                        if key != kv {
                            old_t.lemma_entry(j);
                        }
                    }
                    assert(self.contents() =~= old_t.contents().insert(kv, v));
                }
                return ;
            }
            i = i + 1;
        }
        let ghost kv = k@;
        self.entries.push((k, v));
        proof {
            let len = self.entries@.len();
            assert forall|a: int, b: int|
                0 <= a < b < len implies (#[trigger] self.entries@[a]).0@
                != (#[trigger] self.entries@[b]).0@ by {
                if b < len - 1 {
                    assert(old_t.entries@[a].0@ != old_t.entries@[b].0@);
                }
            }
            assert forall|key: K::V|
                #![trigger self.contents().contains_key(key)]
                self.contents().contains_key(key) == old_t.contents().insert(
                    kv,
                    v,
                ).contains_key(key) by {
                if self.contents().contains_key(key) {
                    let j = choose|j: int| self.has_key_at(key, j);
                    if key != kv {
                        assert(old_t.has_key_at(key, j));
                    }
                }
                if old_t.contents().contains_key(key) {
                    let j = choose|j: int| old_t.has_key_at(key, j);
                    assert(self.has_key_at(key, j));
                }
                if key == kv {
                    assert(self.has_key_at(key, len - 1));
                }
            }
            assert forall|key: K::V| #[trigger]
                self.contents().contains_key(key) implies self.contents()[key]
                == old_t.contents().insert(kv, v)[key] by {
                let j = choose|j: int| self.has_key_at(key, j);
                self.lemma_entry(j);
                if key != kv {
                    old_t.lemma_entry(j);
                }
            }
            assert(self.contents() =~= old_t.contents().insert(kv, v));
        }
    }
}

} // verus!
