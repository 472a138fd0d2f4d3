//! A map from symbols to values, keyed by the symbols' text.

use vstd::prelude::*;
use crate::intern_string::Symbol;

verus! {

/// A map from symbols to values. A key occurs at most once in it.
pub struct Table<V> {
    pub entries: Vec<(Symbol, V)>,
}

impl<V> Table<V> {
    /// No key occurs twice.
    pub open spec fn wf(&self) -> bool {
        forall|i: int, j: int|
            0 <= i < j < self.entries.len() ==> (#[trigger] self.entries[i]).0@ != (
            #[trigger] self.entries[j]).0@
    }

    /// Whether the table holds `key`.
    pub open spec fn contains(&self, key: Seq<char>) -> bool {
        exists|i: int| 0 <= i < self.entries.len() && (#[trigger] self.entries[i]).0@ == key
    }

    /// A place at which the table holds `key`.
    pub open spec fn index_of(&self, key: Seq<char>) -> int {
        choose|i: int| 0 <= i < self.entries.len() && (#[trigger] self.entries[i]).0@ == key
    }

    /// What the table holds under `key`, if anything.
    pub open spec fn lookup(&self, key: Seq<char>) -> Option<V> {
        if self.contains(key) {
            Some(self.entries[self.index_of(key)].1)
        } else {
            None
        }
    }

    /// In a well-formed table, the entry at a place decides the lookup of
    /// its key.
    pub proof fn lookup_at(&self, i: int)
        requires
            self.wf(),
            0 <= i < self.entries.len(),
        ensures
            self.lookup(self.entries[i].0@) == Some(self.entries[i].1),
    {
        let key = self.entries[i].0@;
        assert(self.contains(key));
        let j = self.index_of(key);
        assert(self.entries[j].0@ == key);
        if j < i {
            assert(self.entries[j].0@ != self.entries[i].0@);
        } else if i < j {
            assert(self.entries[i].0@ != self.entries[j].0@);
        }
    }

    pub fn new() -> (table: Table<V>)
        ensures
            table.wf(),
            table.entries@.len() == 0,
            forall|key: Seq<char>| table.lookup(key).is_none(),
    {
        Table { entries: Vec::new() }
    }

    pub fn len(&self) -> (n: usize)
        ensures
            n == self.entries.len(),
    {
        self.entries.len()
    }

    /// The place of `key` in the table, if it is there.
    pub fn find(&self, key: &Symbol) -> (place: Option<usize>)
        requires
            self.wf(),
        ensures
            match place {
                Some(i) => i < self.entries.len() && self.entries[i as int].0@ == key@
                    && self.lookup(key@) == Some(self.entries[i as int].1),
                None => !self.contains(key@) && self.lookup(key@).is_none(),
            },
    {
        let mut i: usize = 0;
        while i < self.entries.len()
            invariant
                self.wf(),
                i <= self.entries.len(),
                forall|k: int| 0 <= k < i ==> (#[trigger] self.entries[k]).0@ != key@,
            decreases self.entries.len() - i,
        {
            if self.entries[i].0.same(key) {
                proof {
                    self.lookup_at(i as int);
                }
                return Some(i);
            }
            i += 1;
        }
        None
    }

    /// The value under `key`, if there is one.
    pub fn get(&self, key: &Symbol) -> (value: Option<&V>)
        requires
            self.wf(),
        ensures
            match value {
                Some(v) => self.lookup(key@) == Some(*v),
                None => self.lookup(key@).is_none(),
            },
    {
        match self.find(key) {
            Some(i) => Some(&self.entries[i].1),
            None => None,
        }
    }

    /// Puts `value` under `key`, in place of what was there.
    pub fn insert(&mut self, key: Symbol, value: V)
        requires
            old(self).wf(),
        ensures
            final(self).wf(),
            forall|k: Seq<char>|
                #[trigger] final(self).lookup(k) == if k == key@ {
                    Some(value)
                } else {
                    old(self).lookup(k)
                },
    {
        match self.find(&key) {
            Some(i) => {
                self.entries[i].1 = value;
                proof {
                    let before = *old(self);
                    let after = *self;
                    assert(after.entries.len() == before.entries.len());
                    assert forall|n: int| 0 <= n < after.entries.len() implies (
                    #[trigger] after.entries[n]).0@ == before.entries[n].0@ by {}
                    assert(after.wf());
                    assert forall|k: Seq<char>| #[trigger]
                        after.lookup(k) == if k == key@ {
                            Some(value)
                        } else {
                            before.lookup(k)
                        } by {
                        if before.contains(k) {
                            let j = before.index_of(k);
                            assert(after.entries[j].0@ == k);
                            before.lookup_at(j);
                            after.lookup_at(j);
                            if k == key@ {
                                before.lookup_at(i as int);
                            } else {
                                assert(j != i);
                            }
                        } else {
                            if after.contains(k) {
                                let j = after.index_of(k);
                                assert(before.entries[j].0@ == k);
                            }
                        }
                    }
                }
            },
            None => {
                self.entries.push((key, value));
                proof {
                    let before = *old(self);
                    let after = *self;
                    let last = before.entries.len() as int;
                    assert(after.entries[last].0@ == key@);
                    assert forall|n: int| 0 <= n < last implies (#[trigger] after.entries[n])
                        == before.entries[n] by {}
                    assert(after.wf());
                    assert forall|k: Seq<char>| #[trigger]
                        after.lookup(k) == if k == key@ {
                            Some(value)
                        } else {
                            before.lookup(k)
                        } by {
                        if k == key@ {
                            after.lookup_at(last);
                        } else if before.contains(k) {
                            let j = before.index_of(k);
                            assert(after.entries[j].0@ == k);
                            before.lookup_at(j);
                            after.lookup_at(j);
                        } else {
                            if after.contains(k) {
                                let j = after.index_of(k);
                                assert(j != last);
                                assert(before.entries[j].0@ == k);
                            }
                        }
                    }
                }
            },
        }
    }
}

} // verus!
