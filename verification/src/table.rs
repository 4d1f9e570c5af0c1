//! A map from names to items.

use vstd::prelude::*;
use crate::text::same_bytes;

verus! {

/// A key of a table with what the table holds under it.
pub struct Entry<T> {
    pub key: Vec<u8>,
    pub item: T,
}

/// A finite map from names to items, in which no name occurs twice.
pub struct Table<T> {
    entries: Vec<Entry<T>>,
}

impl<T: View> View for Table<T> {
    type V = Map<Seq<u8>, T::V>;

    closed spec fn view(&self) -> Map<Seq<u8>, T::V> {
        Map::new(
            |k: Seq<u8>| exists|i: int| 0 <= i < self.entries@.len() && self.entries@[i].key@ == k,
            |k: Seq<u8>| self.entries@[self.place(k)].item@,
        )
    }
}

impl<T> Table<T> {
    #[verifier::type_invariant]
    spec fn distinct(self) -> bool {
        forall|i: int, j: int|
            0 <= i < j < self.entries@.len() ==> self.entries@[i].key@ != self.entries@[j].key@
    }
}

impl<T: View> Table<T> {
    spec fn place(self, k: Seq<u8>) -> int {
        choose|i: int| 0 <= i < self.entries@.len() && self.entries@[i].key@ == k
    }

    /// The table that holds nothing.
    pub fn new() -> (r: Self)
        ensures
            r@ == Map::<Seq<u8>, T::V>::empty(),
    {
        let r = Table { entries: Vec::new() };
        assert(r@ =~= Map::<Seq<u8>, T::V>::empty());
        r
    }

    fn find(&self, key: &[u8]) -> (r: Option<usize>)
        ensures
            match r {
                Some(i) => i < self.entries@.len() && self.entries@[i as int].key@ == key@
                    && self@.dom().contains(key@) && self@[key@] == self.entries@[i as int].item@,
                None => !self@.dom().contains(key@),
            },
    {
        proof {
            use_type_invariant(self);
        }
        let mut i: usize = 0;
        while i < self.entries.len()
            invariant
                i <= self.entries@.len(),
                self.distinct(),
                forall|j: int| 0 <= j < i ==> self.entries@[j].key@ != key@,
            decreases self.entries@.len() - i,
        {
            if same_bytes(self.entries[i].key.as_slice(), key) {
                return Some(i);
            }
            i += 1;
        }
        None
    }

    /// What the table holds under `key`, if anything.
    pub fn get(&self, key: &[u8]) -> (r: Option<&T>)
        ensures
            match r {
                Some(item) => self@.dom().contains(key@) && self@[key@] == item@,
                None => !self@.dom().contains(key@),
            },
    {
        match self.find(key) {
            Some(i) => Some(&self.entries[i].item),
            None => None,
        }
    }

    /// Puts `item` under `key`, in place of what was there.
    pub fn insert(&mut self, key: Vec<u8>, item: T)
        ensures
            final(self)@ == old(self)@.insert(key@, item@),
    {
        proof {
            use_type_invariant(&*self);
        }
        let found = self.find(key.as_slice());
        let ghost before = *self;
        let ghost k = key@;
        let ghost v = item@;
        let mut entries: Vec<Entry<T>> = Vec::new();
        std::mem::swap(&mut entries, &mut self.entries);
        match found {
            Some(i) => {
                entries.set(i, Entry { key, item });
            },
            None => {
                entries.push(Entry { key, item });
            },
        }
        self.entries = entries;
        proof {
            let after = *self;
            assert forall|x: Seq<u8>| after@.dom().contains(x) <==> before@.insert(k, v).dom().contains(x) by {
                if before@.dom().contains(x) {
                    let i = before.place(x);
                    assert(after.entries@[i].key@ == x);
                }
                if x == k {
                    match found {
                        Some(i) => { assert(after.entries@[i as int].key@ == x); },
                        None => { assert(after.entries@[after.entries@.len() - 1].key@ == x); },
                    }
                }
                if after@.dom().contains(x) && x != k {
                    let i = after.place(x);
                    assert(before.entries@[i].key@ == x);
                }
            }
            assert forall|x: Seq<u8>| after@.dom().contains(x) implies after@[x] == before@.insert(k, v)[x] by {
                let i = after.place(x);
                if x != k {
                    assert(before.entries@[i].key@ == x);
                    assert(before.place(x) == i);
                }
            }
            assert(after@ =~= before@.insert(k, v));
        }
    }
}

} // verus!
