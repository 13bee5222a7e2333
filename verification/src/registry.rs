//! A small keyed store: one value per principal.

use vstd::prelude::*;
use crate::types::Address;

verus! {

/// A store that holds at most one value for each principal. Its view is the
/// map from the principals that have a value to their values.
pub struct Registry<T> {
    keys: Vec<Address>,
    values: Vec<T>,
}

impl<T> View for Registry<T> {
    type V = Map<Address, T>;

    closed spec fn view(&self) -> Map<Address, T> {
        Map::new(
            |k: Address| exists|i: int| 0 <= i < self.keys@.len() && self.keys@[i] == k,
            |k: Address| self.values@[choose|i: int| 0 <= i < self.keys@.len() && self.keys@[i] == k],
        )
    }
}

impl<T: Copy> Registry<T> {
    /// The store's invariant: every key has its value, and no key occurs
    /// twice.
    pub closed spec fn wf(&self) -> bool {
        &&& self.keys@.len() == self.values@.len()
        &&& forall|i: int, j: int|
            0 <= i < j < self.keys@.len() ==> self.keys@[i] != self.keys@[j]
    }

    /// The entry at position `i` is what the view holds for its key.
    proof fn lemma_present(&self, i: int)
        requires
            self.wf(),
            0 <= i < self.keys@.len(),
        ensures
            self@.contains_key(self.keys@[i]),
            self@[self.keys@[i]] == self.values@[i],
    {
        let k = self.keys@[i];
        let j = choose|j: int| 0 <= j < self.keys@.len() && self.keys@[j] == k;
        assert(i == j);
    }

    /// The empty store.
    pub fn new() -> (r: Self)
        ensures
            r.wf(),
            r@ == Map::<Address, T>::empty(),
    {
        let r = Registry { keys: Vec::new(), values: Vec::new() };
        proof {
            assert(r@ =~= Map::<Address, T>::empty());
        }
        r
    }

    /// The position of `key` among the keys, if it has a value.
    fn position(&self, key: Address) -> (r: Option<usize>)
        requires
            self.wf(),
        ensures
            match r {
                Some(i) => i < self.keys@.len() && self.keys@[i as int] == key,
                None => forall|i: int| 0 <= i < self.keys@.len() ==> self.keys@[i] != key,
            },
    {
        let mut i: usize = 0;
        while i < self.keys.len()
            invariant
                i <= self.keys@.len(),
                forall|j: int| 0 <= j < i ==> self.keys@[j] != key,
            decreases self.keys@.len() - i,
        {
            if self.keys[i] == key {
                return Some(i);
            }
            i += 1;
        }
        None
    }

    /// The value stored for `key`, if there is one.
    pub fn get(&self, key: Address) -> (r: Option<T>)
        requires
            self.wf(),
        ensures
            r == (if self@.contains_key(key) {
                Some(self@[key])
            } else {
                None
            }),
    {
        match self.position(key) {
            Some(i) => {
                proof {
                    self.lemma_present(i as int);
                }
                Some(self.values[i])
            },
            None => None,
        }
    }

    /// Stores `value` for `key`, in place of what was stored for it before.
    /// No other key is touched.
    pub fn set(&mut self, key: Address, value: T)
        requires
            old(self).wf(),
        ensures
            final(self).wf(),
            final(self)@ == old(self)@.insert(key, value),
    {
        let found = self.position(key);
        match found {
            Some(i) => {
                self.values.set(i, value);
            },
            None => {
                self.keys.push(key);
                self.values.push(value);
            },
        }
        proof {
            let before = *old(self);
            let after = *self;
            assert(after.wf());
            assert forall|k: Address|
                #![trigger after@.contains_key(k)]
                after@.contains_key(k) == before@.insert(key, value).contains_key(k) by {
                if before@.contains_key(k) {
                    let i = choose|i: int| 0 <= i < before.keys@.len() && before.keys@[i] == k;
                    assert(after.keys@[i] == k);
                }
                if k == key {
                    match found {
                        Some(i) => {
                            assert(after.keys@[i as int] == k);
                        },
                        None => {
                            assert(after.keys@[before.keys@.len() as int] == k);
                        },
                    }
                }
                if after@.contains_key(k) && k != key {
                    let i = choose|i: int| 0 <= i < after.keys@.len() && after.keys@[i] == k;
                    assert(before.keys@[i] == k);
                }
            }
            assert forall|k: Address|
                #![trigger after@.contains_key(k)]
                after@.contains_key(k) implies after@[k] == before@.insert(key, value)[k] by {
                let i = choose|i: int| 0 <= i < after.keys@.len() && after.keys@[i] == k;
                after.lemma_present(i);
                if k != key {
                    assert(before.keys@[i] == k);
                    before.lemma_present(i);
                }
            }
            assert(after@ =~= before@.insert(key, value));
        }
    }
}

} // verus!
