//! A keyed, insertion-ordered registry. Entries are addressed either by
//! their namespaced key or by their numeric entry index — the index is the
//! protocol-level id of the entry (the block registry's indices are the
//! global block-state ids, for example). Keys are unique.
use vstd::prelude::*;

use crate::values::Id;

verus! {

pub struct Registry<T> {
    entries: Vec<(Id, T)>,
}

impl<T> View for Registry<T> {
    type V = Seq<((Seq<char>, Seq<char>), T)>;

    closed spec fn view(&self) -> Seq<((Seq<char>, Seq<char>), T)> {
        self.entries@.map(|i: int, e: (Id, T)| (e.0@, e.1))
    }
}

impl<T> Registry<T> {
    /// Keys are unique: no two entries share a key.
    pub open spec fn wf(&self) -> bool {
        forall|i: int, j: int| 0 <= i < j < self@.len() ==> self@[i].0 != self@[j].0
    }

    pub open spec fn spec_contains_key(&self, key: (Seq<char>, Seq<char>)) -> bool {
        exists|i: int| 0 <= i < self@.len() && self@[i].0 == key
    }

    /// The index of the entry with this key. Under `wf` there is at most
    /// one, so the choice is determined.
    pub open spec fn spec_index_of(&self, key: (Seq<char>, Seq<char>)) -> int {
        choose|i: int| 0 <= i < self@.len() && self@[i].0 == key
    }

    /// The value stored under this key, when present.
    pub open spec fn spec_get(&self, key: (Seq<char>, Seq<char>)) -> Option<T> {
        if self.spec_contains_key(key) {
            Some(self@[self.spec_index_of(key)].1)
        } else {
            None
        }
    }

    pub fn new() -> (r: Registry<T>)
        ensures
            r@ == Seq::<((Seq<char>, Seq<char>), T)>::empty(),
            r.wf(),
    {
        Registry { entries: Vec::new() }
    }

    pub fn len(&self) -> (r: usize)
        ensures
            r == self@.len(),
    {
        self.entries.len()
    }

    /// The index of the entry with this key, if present. Under `wf` the
    /// index is unique, so this pins the result exactly.
    pub fn get_entry(&self, key: &Id) -> (r: Option<usize>)
        ensures
            match r {
                Some(i) => i < self@.len() && self@[i as int].0 == key@,
                None => !self.spec_contains_key(key@),
            },
    {
        let n = self.entries.len();
        let mut i: usize = 0;
        while i < n
            invariant
                n == self@.len(),
                i <= n,
                forall|j: int| 0 <= j < i ==> self@[j].0 != key@,
            decreases n - i,
        {
            if self.entries[i].0 == *key {
                return Some(i);
            }
            i = i + 1;
        }
        None
    }

    /// Insert: replaces the value of an existing key in place, keeping its
    /// index, or appends a fresh entry at the end.
    pub fn insert(&mut self, key: Id, value: T)
        requires
            old(self).wf(),
        ensures
            final(self).wf(),
            final(self).spec_contains_key(key@),
            old(self).spec_contains_key(key@) ==> {
                &&& final(self)@.len() == old(self)@.len()
                &&& exists|i: int|
                    0 <= i < old(self)@.len() && old(self)@[i].0 == key@ && final(self)@ == old(
                        self,
                    )@.update(i, (key@, value))
            },
            !old(self).spec_contains_key(key@) ==> final(self)@ == old(self)@.push((key@, value)),
    {
        match self.get_entry(&key) {
            Some(i) => {
                let ghost prior = self@;
                self.entries[i] = (key, value);
                proof {
                    assert(self@ =~= prior.update(i as int, (self@[i as int].0, self@[i as int].1)));
                }
            }
            None => {
                let ghost prior = self@;
                self.entries.push((key, value));
                proof {
                    assert(self@ =~= prior.push((self@[prior.len() as int].0, self@[prior.len() as int].1)));
                }
            }
        }
    }

    /// Look a value up by key.
    pub fn get(&self, key: &Id) -> (r: Option<&T>)
        requires
            self.wf(),
        ensures
            match r {
                Some(v) => self.spec_get(key@) == Some(*v),
                None => self.spec_get(key@) is None,
            },
    {
        match self.get_entry(key) {
            Some(i) => {
                proof {
                    lemma_registry_round_trip(*self, i as int);
                    assert(self.spec_index_of(key@) == i as int);
                }
                Some(&self.entries[i].1)
            }
            None => None,
        }
    }

    /// The key of the entry at this index — by construction the inverse of
    /// `get_entry`.
    pub fn key_of(&self, index: usize) -> (r: Option<&Id>)
        ensures
            match r {
                Some(k) => index < self@.len() && k@ == self@[index as int].0,
                None => index >= self@.len(),
            },
    {
        if index < self.entries.len() {
            Some(&self.entries[index].0)
        } else {
            None
        }
    }

    /// The value of the entry at this index.
    pub fn value_of(&self, index: usize) -> (r: Option<&T>)
        ensures
            match r {
                Some(v) => index < self@.len() && *v == self@[index as int].1,
                None => index >= self@.len(),
            },
    {
        if index < self.entries.len() {
            Some(&self.entries[index].1)
        } else {
            None
        }
    }

    /// All keys, in entry-index order.
    pub fn keys(&self) -> (r: Vec<Id>)
        ensures
            r@.len() == self@.len(),
            forall|i: int| 0 <= i < r@.len() ==> r@[i]@ == self@[i].0,
    {
        let n = self.entries.len();
        let mut r: Vec<Id> = Vec::new();
        let mut i: usize = 0;
        while i < n
            invariant
                n == self@.len(),
                i <= n,
                r@.len() == i,
                forall|j: int| 0 <= j < i ==> r@[j]@ == self@[j].0,
            decreases n - i,
        {
            r.push(self.entries[i].0.clone());
            i = i + 1;
        }
        r
    }

    pub fn clear(&mut self)
        ensures
            final(self)@ == Seq::<((Seq<char>, Seq<char>), T)>::empty(),
            final(self).wf(),
    {
        self.entries.clear();
    }
}

impl<T: Clone> Registry<T> {
    /// All entries, in entry-index order. Values come through `T::clone`,
    /// of which nothing more is known for a general `T`.
    pub fn entries(&self) -> (r: Vec<(Id, T)>)
        ensures
            r@.len() == self@.len(),
            forall|i: int| 0 <= i < r@.len() ==> r@[i].0@ == self@[i].0,
    {
        let n = self.entries.len();
        let mut r: Vec<(Id, T)> = Vec::new();
        let mut i: usize = 0;
        while i < n
            invariant
                n == self@.len(),
                i <= n,
                r@.len() == i,
                forall|j: int| 0 <= j < i ==> r@[j].0@ == self@[j].0,
            decreases n - i,
        {
            r.push((self.entries[i].0.clone(), self.entries[i].1.clone()));
            i = i + 1;
        }
        r
    }
}

impl<T: Clone> Clone for Registry<T> {
    /// The copy keeps every key at its index; each value is a clone of the
    /// original's, which for a general `T` is all `T::clone` promises.
    fn clone(&self) -> (r: Registry<T>)
        ensures
            r@.len() == self@.len(),
            forall|i: int|
                0 <= i < self@.len() ==> (#[trigger] r@[i]).0 == self@[i].0 && cloned::<T>(
                    self@[i].1,
                    r@[i].1,
                ),
            self.wf() ==> r.wf(),
    {
        let n = self.entries.len();
        let mut entries: Vec<(Id, T)> = Vec::new();
        let mut i: usize = 0;
        while i < n
            invariant
                n == self@.len(),
                self@.len() == self.entries@.len(),
                forall|j: int|
                    0 <= j < self@.len() ==> self@[j].0 == (#[trigger] self.entries@[j]).0@
                        && self@[j].1 == self.entries@[j].1,
                i <= n,
                entries@.len() == i,
                forall|j: int|
                    0 <= j < i ==> (#[trigger] entries@[j]).0@ == self@[j].0 && cloned::<T>(
                        self@[j].1,
                        entries@[j].1,
                    ),
            decreases n - i,
        {
            entries.push((self.entries[i].0.clone(), self.entries[i].1.clone()));
            i = i + 1;
        }
        let r = Registry { entries };
        proof {
            if self.wf() {
                assert forall|i: int, j: int| 0 <= i < j < r@.len() implies r@[i].0 != r@[j].0 by {
                    assert(self@[i].0 != self@[j].0);
                }
            }
        }
        r
    }
}

impl<T> Default for Registry<T> {
    fn default() -> (r: Registry<T>)
        ensures
            r@ == Seq::<((Seq<char>, Seq<char>), T)>::empty(),
            r.wf(),
    {
        Registry::new()
    }
}

/// Key-to-index round trip: under `wf`, the entry index that `get_entry`
/// reports for a key maps back to that key through `key_of`, and the other
/// way around. This is what makes a registry index a faithful protocol id
/// for its key.
pub proof fn lemma_registry_round_trip<T>(r: Registry<T>, i: int)
    requires
        r.wf(),
        0 <= i < r@.len(),
    ensures
        forall|j: int| 0 <= j < r@.len() && r@[j].0 == r@[i].0 ==> j == i,
{
    assert forall|j: int| 0 <= j < r@.len() && r@[j].0 == r@[i].0 implies j == i by {
        if j < i {
            assert(r@[j].0 != r@[i].0);
        } else if j > i {
            assert(r@[i].0 != r@[j].0);
        }
    }
}

} // verus!
