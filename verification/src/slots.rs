//! The mathematical model of a slot-reusing map: a sequence of optional
//! slots, a map from key to slot, and the list of vacated slots.

use vstd::prelude::*;

verus! {

/// A map from keys to values laid out in slots.
///
/// A value lives in `slots`, at the position `index` gives for its key. A
/// removed key leaves its slot vacant and puts the slot's position at the end
/// of `free`; an insertion of a new key fills the slot at the end of `free`
/// before it lets `slots` grow.
#[verifier::ext_equal]
#[verifier::reject_recursive_types(K)]
pub struct SlotModel<K, V> {
    /// The slots, occupied or vacant.
    pub slots: Seq<Option<V>>,
    /// For each live key, the position of its slot.
    pub index: Map<K, int>,
    /// The positions of the vacant slots, the one vacated last at the end.
    pub free: Seq<int>,
}

impl<K, V> SlotModel<K, V> {
    /// The model without any slot, key or vacant position.
    pub open spec fn empty() -> Self {
        SlotModel { slots: Seq::empty(), index: Map::empty(), free: Seq::empty() }
    }

    /// Every live key has one occupied slot of its own, every vacant slot stands
    /// once in `free`, and there is no other slot.
    pub open spec fn wf(self) -> bool {
        &&& forall|k: K| #[trigger]
            self.index.contains_key(k) ==> 0 <= self.index[k] < self.slots.len()
                && self.slots[self.index[k]] is Some
        &&& forall|k1: K, k2: K|
            #![trigger self.index.contains_key(k1), self.index.contains_key(k2)]
            self.index.contains_key(k1) && self.index.contains_key(k2) && k1 != k2
                ==> self.index[k1] != self.index[k2]
        &&& forall|i: int|
            0 <= i < self.free.len() ==> 0 <= #[trigger] self.free[i] < self.slots.len()
                && self.slots[self.free[i]] is None
        &&& forall|i: int, j: int|
            0 <= i < j < self.free.len() ==> #[trigger] self.free[i] != #[trigger] self.free[j]
        &&& forall|s: int|
            0 <= s < self.slots.len() && #[trigger] self.slots[s] is Some ==> self.holder(s)
        &&& forall|s: int|
            0 <= s < self.slots.len() && #[trigger] self.slots[s] is None ==> self.free.contains(s)
    }

    /// Some live key has the slot at position `s`.
    pub open spec fn holder(self, s: int) -> bool {
        exists|k: K| #[trigger] self.index.contains_key(k) && self.index[k] == s
    }

    /// The key-value pairs that the model holds.
    pub open spec fn entries(self) -> Map<K, V> {
        Map::new(
            |k: K| self.index.contains_key(k),
            |k: K| self.slots[self.index[k]].unwrap(),
        )
    }

    /// The model after `value` is stored under `key`: in the key's own slot if
    /// the key is live, else in the slot vacated last, else in a new slot at the
    /// end.
    pub open spec fn insert(self, key: K, value: V) -> Self {
        if self.index.contains_key(key) {
            SlotModel {
                slots: self.slots.update(self.index[key], Some(value)),
                index: self.index,
                free: self.free,
            }
        } else if self.free.len() > 0 {
            SlotModel {
                slots: self.slots.update(self.free.last(), Some(value)),
                index: self.index.insert(key, self.free.last()),
                free: self.free.drop_last(),
            }
        } else {
            SlotModel {
                slots: self.slots.push(Some(value)),
                index: self.index.insert(key, self.slots.len() as int),
                free: self.free,
            }
        }
    }

    /// The model after `key` is removed: its slot is vacant and stands at the
    /// end of `free`. A key that is not live changes nothing.
    pub open spec fn remove(self, key: K) -> Self {
        if self.index.contains_key(key) {
            SlotModel {
                slots: self.slots.update(self.index[key], None),
                index: self.index.remove(key),
                free: self.free.push(self.index[key]),
            }
        } else {
            self
        }
    }

    /// An insertion keeps the model well formed and acts on its entries as an
    /// insertion into a map.
    pub proof fn lemma_insert(self, key: K, value: V)
        requires
            self.wf(),
        ensures
            self.insert(key, value).wf(),
            self.insert(key, value).entries() == self.entries().insert(key, value),
    {
        let after = self.insert(key, value);
        if !self.index.contains_key(key) {
            let slot = if self.free.len() > 0 {
                self.free.last()
            } else {
                self.slots.len() as int
            };
            assert forall|s: int| 0 <= s < after.slots.len() && #[trigger] after.slots[s] is Some
                implies after.holder(s) by {
                if s != slot {
                    let k = choose|k: K| #[trigger]
                        self.index.contains_key(k) && self.index[k] == s;
                    assert(after.index.contains_key(k));
                } else {
                    assert(after.index.contains_key(key));
                }
            }
            assert forall|s: int| 0 <= s < after.slots.len() && #[trigger] after.slots[s] is None
                implies after.free.contains(s) by {
                let i = choose|i: int| 0 <= i < self.free.len() && self.free[i] == s;
                assert(after.free[i] == s);
            }
        }
    }

    /// A removal keeps the model well formed and acts on its entries as a
    /// removal from a map.
    pub proof fn lemma_remove(self, key: K)
        requires
            self.wf(),
        ensures
            self.remove(key).wf(),
            self.remove(key).entries() == self.entries().remove(key),
    {
        let after = self.remove(key);
        if self.index.contains_key(key) {
            let slot = self.index[key];
            assert forall|s: int| 0 <= s < after.slots.len() && #[trigger] after.slots[s] is None
                implies after.free.contains(s) by {
                if s == slot {
                    assert(after.free[self.free.len() as int] == s);
                } else {
                    let i = choose|i: int| 0 <= i < self.free.len() && self.free[i] == s;
                    assert(after.free[i] == s);
                }
            }
        }
        assert(after.entries() =~= self.entries().remove(key));
    }
}

} // verus!
