//! The dense-array storage backend: one optional slot per entity index,
//! consulted together with its presence index.
use vstd::prelude::*;
use crate::bitset::{
    bit_set_add, bit_set_contains, bit_set_members, bit_set_new, bit_set_remove,
    bit_set_with_capacity, bounded, MAX_INDEX,
};

verus! {

/// Component payloads in a vector indexed by entity, with the presence
/// index that says which slots hold data.
pub struct VecStorage<T> {
    slots: Vec<Option<T>>,
    mask: hibitset::BitSet,
}

impl<T> View for VecStorage<T> {
    type V = Map<u32, T>;

    /// The payload of each index that has one.
    closed spec fn view(&self) -> Map<u32, T> {
        Map::new(
            |i: u32| i < self.slots@.len() && self.slots@[i as int] is Some,
            |i: u32| self.slots@[i as int]->Some_0,
        )
    }
}

impl<T> VecStorage<T> {
    /// The presence index.
    pub closed spec fn presence(&self) -> Set<u32> {
        bit_set_members(self.mask)
    }

    /// The presence index holds exactly the indices whose slot is filled,
    /// and every index is below `MAX_INDEX`.
    pub closed spec fn wf(&self) -> bool {
        &&& forall|i: u32| #[trigger]
            bit_set_members(self.mask).contains(i) <==> (i < self.slots@.len()
                && self.slots@[i as int] is Some)
        &&& self.slots@.len() <= MAX_INDEX
    }

    /// The presence index and the stored payloads agree.
    pub proof fn lemma_coherent(&self)
        requires
            self.wf(),
        ensures
            self.presence() == self@.dom(),
            forall|i: u32| self@.contains_key(i) ==> i < MAX_INDEX,
    {
        assert(self.presence() =~= self@.dom());
    }

    /// An empty storage.
    pub fn new() -> (r: VecStorage<T>)
        ensures
            r.wf(),
            r@ == Map::<u32, T>::empty(),
    {
        let r = VecStorage { slots: Vec::new(), mask: bit_set_new() };
        assert(r@ =~= Map::<u32, T>::empty());
        r
    }

    /// An empty storage with room for `capacity` indices.
    pub fn with_capacity(capacity: u32) -> (r: VecStorage<T>)
        requires
            capacity <= MAX_INDEX,
        ensures
            r.wf(),
            r@ == Map::<u32, T>::empty(),
    {
        let r = VecStorage {
            slots: Vec::with_capacity(capacity as usize),
            mask: bit_set_with_capacity(capacity),
        };
        assert(r@ =~= Map::<u32, T>::empty());
        r
    }

    /// The presence index, holding exactly the indices that have a payload.
    pub fn mask(&self) -> (r: &hibitset::BitSet)
        requires
            self.wf(),
        ensures
            forall|i: u32| bit_set_members(*r).contains(i) <==> self@.contains_key(i),
            bounded(*r),
    {
        &self.mask
    }

    /// Stores `value` as the payload of `id`, replacing any earlier one.
    pub fn insert(&mut self, id: u32, value: T)
        requires
            old(self).wf(),
            id < MAX_INDEX,
        ensures
            final(self).wf(),
            final(self)@ == old(self)@.insert(id, value),
    {
        let ghost old_slots = self.slots@;
        bit_set_add(&mut self.mask, id);
        while self.slots.len() <= id as usize
            invariant
                old_slots.len() <= self.slots@.len(),
                self.slots@.len() == old_slots.len() || self.slots@.len() <= id + 1,
                old_slots.len() <= MAX_INDEX,
                forall|i: int| 0 <= i < old_slots.len() ==> self.slots@[i] == old_slots[i],
                forall|i: int| old_slots.len() <= i < self.slots@.len() ==> self.slots@[i] is None,
                bit_set_members(self.mask) == bit_set_members(self.mask).insert(id),
                forall|i: u32|
                    #[trigger] bit_set_members(self.mask).contains(i) <==> (i == id || (i
                        < old_slots.len() && old_slots[i as int] is Some)),
            decreases id + 1 - self.slots@.len(),
        {
            self.slots.push(None);
        }
        self.slots[id as usize] = Some(value);
        assert(self@ =~= old(self)@.insert(id, value));
    }

    /// Drops the payload of `id` and returns it, if it had one.
    pub fn remove(&mut self, id: u32) -> (r: Option<T>)
        requires
            old(self).wf(),
        ensures
            final(self).wf(),
            final(self)@ == old(self)@.remove(id),
            r.is_some() == old(self)@.contains_key(id),
            r.is_some() ==> r.unwrap() == old(self)@[id],
    {
        if bit_set_remove(&mut self.mask, id) {
            let r = self.slots[id as usize].take();
            assert(self@ =~= old(self)@.remove(id));
            r
        } else {
            assert(self@ =~= old(self)@.remove(id));
            None
        }
    }

    /// Whether `id` has a payload.
    pub fn contains(&self, id: u32) -> (r: bool)
        requires
            self.wf(),
        ensures
            r == self@.contains_key(id),
    {
        bit_set_contains(&self.mask, id)
    }

    /// The payload of `id`, if it has one.
    pub fn get(&self, id: u32) -> (r: Option<&T>)
        requires
            self.wf(),
        ensures
            r.is_some() == self@.contains_key(id),
            r.is_some() ==> *r.unwrap() == self@[id],
    {
        if bit_set_contains(&self.mask, id) {
            self.slots[id as usize].as_ref()
        } else {
            None
        }
    }

    /// A mutable reference to the payload of `id`, if it has one.
    pub fn get_mut(&mut self, id: u32) -> (r: Option<&mut T>)
        requires
            old(self).wf(),
        ensures
            r.is_some() == old(self)@.contains_key(id),
            r.is_some() ==> *r.unwrap() == old(self)@[id] && final(self)@ == old(self)@.insert(
                id,
                *final(r.unwrap()),
            ),
            r.is_none() ==> final(self)@ == old(self)@,
            final(self).wf(),
    {
        if bit_set_contains(&self.mask, id) {
            self.slots[id as usize].as_mut()
        } else {
            None
        }
    }
}

/// Component payloads in an ordered map keyed by entity index, with the
/// presence index that says which indices hold data: for sparse components
/// that are walked in index order.
pub struct OrderedStorage<T> {
    map: std::collections::BTreeMap<u32, T>,
    mask: hibitset::BitSet,
}

impl<T> View for OrderedStorage<T> {
    type V = Map<u32, T>;

    /// The payload of each index that has one.
    closed spec fn view(&self) -> Map<u32, T> {
        self.map@
    }
}

impl<T> OrderedStorage<T> {
    /// The presence index.
    pub closed spec fn presence(&self) -> Set<u32> {
        bit_set_members(self.mask)
    }

    /// The presence index and the stored payloads agree.
    pub proof fn lemma_coherent(&self)
        requires
            self.wf(),
        ensures
            self.presence() == self@.dom(),
            forall|i: u32| self@.contains_key(i) ==> i < MAX_INDEX,
    {
    }

    /// The presence index holds exactly the keys of the map, and every key
    /// is below `MAX_INDEX`.
    pub closed spec fn wf(&self) -> bool {
        &&& bit_set_members(self.mask) == self.map@.dom()
        &&& forall|i: u32| #[trigger] self.map@.contains_key(i) ==> i < MAX_INDEX
    }

    /// An empty storage.
    pub fn new() -> (r: OrderedStorage<T>)
        ensures
            r.wf(),
            r@ == Map::<u32, T>::empty(),
    {
        let r = OrderedStorage { map: std::collections::BTreeMap::new(), mask: bit_set_new() };
        assert(bit_set_members(r.mask) =~= r.map@.dom());
        r
    }

    /// An empty storage with room for `capacity` indices (the map itself has no capacity, the presence index is pre-sized).
    pub fn with_capacity(capacity: u32) -> (r: OrderedStorage<T>)
        requires
            capacity <= MAX_INDEX,
        ensures
            r.wf(),
            r@ == Map::<u32, T>::empty(),
    {
        let r = OrderedStorage { map: std::collections::BTreeMap::new(), mask: bit_set_with_capacity(capacity) };
        assert(bit_set_members(r.mask) =~= r.map@.dom());
        r
    }

    /// The presence index, holding exactly the indices that have a payload.
    pub fn mask(&self) -> (r: &hibitset::BitSet)
        requires
            self.wf(),
        ensures
            forall|i: u32| bit_set_members(*r).contains(i) <==> self@.contains_key(i),
            bounded(*r),
    {
        &self.mask
    }

    /// Stores `value` as the payload of `id`, replacing any earlier one.
    pub fn insert(&mut self, id: u32, value: T)
        requires
            old(self).wf(),
            id < MAX_INDEX,
        ensures
            final(self).wf(),
            final(self)@ == old(self)@.insert(id, value),
    {
        broadcast use vstd::laws_cmp::group_laws_cmp;

        bit_set_add(&mut self.mask, id);
        self.map.insert(id, value);
        assert(bit_set_members(self.mask) =~= self.map@.dom());
    }

    /// Drops the payload of `id` and returns it, if it had one.
    pub fn remove(&mut self, id: u32) -> (r: Option<T>)
        requires
            old(self).wf(),
        ensures
            final(self).wf(),
            final(self)@ == old(self)@.remove(id),
            r.is_some() == old(self)@.contains_key(id),
            r.is_some() ==> r.unwrap() == old(self)@[id],
    {
        broadcast use vstd::laws_cmp::group_laws_cmp;
        broadcast use vstd::std_specs::btree::group_btree_axioms;

        bit_set_remove(&mut self.mask, id);
        let r = self.map.remove(&id);
        assert(bit_set_members(self.mask) =~= self.map@.dom());
        r
    }

    /// Whether `id` has a payload.
    pub fn contains(&self, id: u32) -> (r: bool)
        requires
            self.wf(),
        ensures
            r == self@.contains_key(id),
    {
        bit_set_contains(&self.mask, id)
    }

    /// The payload of `id`, if it has one.
    pub fn get(&self, id: u32) -> (r: Option<&T>)
        requires
            self.wf(),
        ensures
            r.is_some() == self@.contains_key(id),
            r.is_some() ==> *r.unwrap() == self@[id],
    {
        broadcast use vstd::laws_cmp::group_laws_cmp;
        broadcast use vstd::std_specs::btree::group_btree_axioms;

        self.map.get(&id)
    }
}

/// Component payloads in a hash map keyed by entity index, with the
/// presence index that says which indices hold data: for sparse components
/// that are looked up often.
pub struct HashStorage<T> {
    map: std::collections::HashMap<u32, T>,
    mask: hibitset::BitSet,
}

impl<T> View for HashStorage<T> {
    type V = Map<u32, T>;

    /// The payload of each index that has one.
    closed spec fn view(&self) -> Map<u32, T> {
        self.map@
    }
}

impl<T> HashStorage<T> {
    /// The presence index.
    pub closed spec fn presence(&self) -> Set<u32> {
        bit_set_members(self.mask)
    }

    /// The presence index and the stored payloads agree.
    pub proof fn lemma_coherent(&self)
        requires
            self.wf(),
        ensures
            self.presence() == self@.dom(),
            forall|i: u32| self@.contains_key(i) ==> i < MAX_INDEX,
    {
    }

    /// The presence index holds exactly the keys of the map, and every key
    /// is below `MAX_INDEX`.
    pub closed spec fn wf(&self) -> bool {
        &&& bit_set_members(self.mask) == self.map@.dom()
        &&& forall|i: u32| #[trigger] self.map@.contains_key(i) ==> i < MAX_INDEX
    }

    /// An empty storage.
    pub fn new() -> (r: HashStorage<T>)
        ensures
            r.wf(),
            r@ == Map::<u32, T>::empty(),
    {
        let r = HashStorage { map: std::collections::HashMap::new(), mask: bit_set_new() };
        assert(bit_set_members(r.mask) =~= r.map@.dom());
        r
    }

    /// An empty storage with room for `capacity` indices (both the map and the presence index are pre-sized).
    pub fn with_capacity(capacity: u32) -> (r: HashStorage<T>)
        requires
            capacity <= MAX_INDEX,
        ensures
            r.wf(),
            r@ == Map::<u32, T>::empty(),
    {
        let r = HashStorage { map: std::collections::HashMap::with_capacity(capacity as usize), mask: bit_set_with_capacity(capacity) };
        assert(bit_set_members(r.mask) =~= r.map@.dom());
        r
    }

    /// The presence index, holding exactly the indices that have a payload.
    pub fn mask(&self) -> (r: &hibitset::BitSet)
        requires
            self.wf(),
        ensures
            forall|i: u32| bit_set_members(*r).contains(i) <==> self@.contains_key(i),
            bounded(*r),
    {
        &self.mask
    }

    /// Stores `value` as the payload of `id`, replacing any earlier one.
    pub fn insert(&mut self, id: u32, value: T)
        requires
            old(self).wf(),
            id < MAX_INDEX,
        ensures
            final(self).wf(),
            final(self)@ == old(self)@.insert(id, value),
    {
        broadcast use vstd::std_specs::hash::group_hash_axioms;

        bit_set_add(&mut self.mask, id);
        self.map.insert(id, value);
        assert(bit_set_members(self.mask) =~= self.map@.dom());
    }

    /// Drops the payload of `id` and returns it, if it had one.
    pub fn remove(&mut self, id: u32) -> (r: Option<T>)
        requires
            old(self).wf(),
        ensures
            final(self).wf(),
            final(self)@ == old(self)@.remove(id),
            r.is_some() == old(self)@.contains_key(id),
            r.is_some() ==> r.unwrap() == old(self)@[id],
    {
        broadcast use vstd::std_specs::hash::group_hash_axioms;

        bit_set_remove(&mut self.mask, id);
        let r = self.map.remove(&id);
        assert(bit_set_members(self.mask) =~= self.map@.dom());
        r
    }

    /// Whether `id` has a payload.
    pub fn contains(&self, id: u32) -> (r: bool)
        requires
            self.wf(),
        ensures
            r == self@.contains_key(id),
    {
        bit_set_contains(&self.mask, id)
    }

    /// The payload of `id`, if it has one.
    pub fn get(&self, id: u32) -> (r: Option<&T>)
        requires
            self.wf(),
        ensures
            r.is_some() == self@.contains_key(id),
            r.is_some() ==> *r.unwrap() == self@[id],
    {
        broadcast use vstd::std_specs::hash::group_hash_axioms;

        self.map.get(&id)
    }
}

} // verus!
