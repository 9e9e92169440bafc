//! A map from identity keys to values that keeps its values in slots and
//! fills the slot of a removed key before it grows.

use crate::slots::SlotModel;
use vstd::hash_map::StringHashMap;
use vstd::prelude::*;

verus! {

/// A slot-reusing map keyed by strings.
///
/// The values stand in a vector of optional slots. A second map leads from
/// each key to its slot, and a list holds the slots that removals have
/// vacated, the latest at its end.
pub struct IndexMap<V> {
    values: Vec<Option<V>>,
    keys: StringHashMap<usize>,
    nuked: Vec<usize>,
}

impl<V> View for IndexMap<V> {
    type V = Map<Seq<char>, V>;

    /// The key-value pairs of the map.
    open spec fn view(&self) -> Map<Seq<char>, V> {
        self.model().entries()
    }
}

impl<V> IndexMap<V> {
    /// The slots, the key index and the vacant list as mathematical values.
    pub closed spec fn model(&self) -> SlotModel<Seq<char>, V> {
        SlotModel {
            slots: self.values@,
            index: Map::new(
                |k: Seq<char>| self.keys@.contains_key(k),
                |k: Seq<char>| self.keys@[k] as int,
            ),
            free: Seq::new(self.nuked@.len(), |i: int| self.nuked@[i] as int),
        }
    }

    /// The invariant of the map: its model is well formed.
    pub open spec fn wf(&self) -> bool {
        self.model().wf()
    }

    /// An empty map.
    pub fn new() -> (map: Self)
        ensures
            map.wf(),
            map.model() == SlotModel::<Seq<char>, V>::empty(),
            map@ == Map::<Seq<char>, V>::empty(),
    {
        IndexMap { values: Vec::new(), keys: StringHashMap::new(), nuked: Vec::new() }
    }

    /// An empty map with room for `capacity` entries.
    pub fn new_with_capacity(capacity: usize) -> (map: Self)
        ensures
            map.wf(),
            map.model() == SlotModel::<Seq<char>, V>::empty(),
            map@ == Map::<Seq<char>, V>::empty(),
    {
        IndexMap {
            values: Vec::with_capacity(capacity),
            keys: StringHashMap::with_capacity(capacity),
            nuked: Vec::new(),
        }
    }

    /// The number of slots, occupied and vacant.
    pub fn slots(&self) -> (count: usize)
        ensures
            count == self.model().slots.len(),
    {
        self.values.len()
    }

    /// Takes `key` and its value out of the map and leaves the slot vacant,
    /// first in line for the next new key.
    pub fn remove(&mut self, key: &str) -> (removed: Option<V>)
        requires
            old(self).wf(),
        ensures
            final(self).wf(),
            final(self).model() == old(self).model().remove(key@),
            final(self)@ == old(self)@.remove(key@),
            removed == old(self)@.get(key@),
    {
        let found = match self.keys.get(key) {
            Some(index) => Some(*index),
            None => None,
        };
        proof {
            old(self).model().lemma_remove(key@);
        }
        if let Some(index) = found {
            self.keys.remove(key);
            let value = self.values[index].take();
            self.nuked.push(index);
            assert(self.model() =~= old(self).model().remove(key@));
            value
        } else {
            None
        }
    }

    /// Stores `value` under `key` and returns the value it replaces. A key
    /// that is already there keeps its slot; a new key gets the slot vacated
    /// last, or a new slot when none is vacant.
    pub fn insert(&mut self, key: String, value: V) -> (previous: Option<V>)
        requires
            old(self).wf(),
        ensures
            final(self).wf(),
            final(self).model() == old(self).model().insert(key@, value),
            final(self)@ == old(self)@.insert(key@, value),
            previous == old(self)@.get(key@),
    {
        let found = match self.keys.get(key.as_str()) {
            Some(index) => Some(*index),
            None => None,
        };
        proof {
            old(self).model().lemma_insert(key@, value);
        }
        if let Some(old_index) = found {
            let old_value = self.values[old_index].take();
            self.values[old_index] = Some(value);
            self.keys.insert(key, old_index);
            assert(self.model() =~= old(self).model().insert(key@, value));
            return old_value;
        }
        if self.nuked.is_empty() {
            let index = self.values.len();
            self.values.push(Some(value));
            self.keys.insert(key, index);
        } else {
            let index = self.nuked.pop().unwrap();
            self.values[index] = Some(value);
            self.keys.insert(key, index);
        }
        assert(self.model() =~= old(self).model().insert(key@, value));
        None
    }

    /// The value stored under `key`.
    pub fn get(&self, key: &str) -> (value: Option<&V>)
        requires
            self.wf(),
        ensures
            value == (match self@.get(key@) {
                Some(v) => Some(&v),
                None => None,
            }),
    {
        match self.keys.get(key) {
            Some(index) => self.values[*index].as_ref(),
            None => None,
        }
    }

    /// The value stored under `key`, open to change in place.
    pub fn get_mut(&mut self, key: &str) -> (value: Option<&mut V>)
        requires
            old(self).wf(),
        ensures
            final(self).wf(),
            match value {
                Some(v) => {
                    &&& old(self)@.get(key@) == Some(*v)
                    &&& final(self).model() == old(self).model().insert(key@, *final(v))
                    &&& final(self)@ == old(self)@.insert(key@, *final(v))
                },
                None => {
                    &&& old(self)@.get(key@) is None
                    &&& final(self).model() == old(self).model()
                },
            },
    {
        match self.keys.get(key) {
            Some(index) => {
                let index: usize = *index;
                self.values[index].as_mut()
            },
            None => None,
        }
    }

    /// Drops every slot, every key and the vacant list.
    pub fn clear_all(&mut self)
        ensures
            final(self).wf(),
            final(self).model() == SlotModel::<Seq<char>, V>::empty(),
            final(self)@ == Map::<Seq<char>, V>::empty(),
    {
        self.values.clear();
        self.keys.clear();
        self.nuked.clear();
    }
}

impl<V> Default for IndexMap<V> {
    fn default() -> (map: Self)
        ensures
            map.wf(),
            map.model() == SlotModel::<Seq<char>, V>::empty(),
            map@ == Map::<Seq<char>, V>::empty(),
    {
        IndexMap::new()
    }
}

} // verus!
