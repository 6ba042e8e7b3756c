//! The component store: presence indexes, storage backends, the alive set
//! and the entity allocator with its queue of recycled indices.
use vstd::prelude::*;
use crate::bitset::{
    bit_set_add, bit_set_contains, bit_set_members, bit_set_new, bit_set_remove,
    bit_set_with_capacity, bounded, MAX_INDEX,
};
use crate::builder::{Enabled, MyEcsEntityBuilder};
use crate::entity::Entity;
use crate::freelist::{queued, FreeList};
use crate::model::{apply_slot, StoreModel};
use crate::storage::VecStorage;

verus! {

/// Stores `slot` as the payload of `id`, or drops the payload of `id` when
/// `slot` is empty.
fn apply_to<T>(s: &mut VecStorage<T>, id: u32, slot: Option<T>)
    requires
        old(s).wf(),
        id < MAX_INDEX,
    ensures
        final(s).wf(),
        final(s)@ == apply_slot(old(s)@, id, slot),
{
    match slot {
        Some(v) => s.insert(id, v),
        None => {
            s.remove(id);
        },
    }
}

/// All the components of every entity, with the alive set and the
/// allocator of entity indices.
pub struct MyEcsComponentStore<P, V, A> {
    max: u32,
    freed: FreeList,
    alive: hibitset::BitSet,
    reserved: hibitset::BitSet,
    position: VecStorage<P>,
    velocity: VecStorage<V>,
    acceleration: VecStorage<A>,
    enabled: hibitset::BitSet,
}

impl<P, V, A> View for MyEcsComponentStore<P, V, A> {
    type V = StoreModel<P, V, A>;

    closed spec fn view(&self) -> StoreModel<P, V, A> {
        StoreModel {
            alive: bit_set_members(self.alive),
            reserved: bit_set_members(self.reserved),
            max: self.max,
            freed: queued(self.freed),
            position: self.position@,
            velocity: self.velocity@,
            acceleration: self.acceleration@,
            enabled: bit_set_members(self.enabled),
        }
    }
}

impl<P, V, A> Default for MyEcsComponentStore<P, V, A> {
    /// An empty store.
    fn default() -> (r: Self)
        ensures
            r.wf(),
            r@ == StoreModel::<P, V, A>::empty(),
    {
        Self::new()
    }
}

impl<P, V, A> MyEcsComponentStore<P, V, A> {
    /// Each backend agrees with its presence index.
    pub closed spec fn backends_wf(&self) -> bool {
        &&& self.position.wf()
        &&& self.velocity.wf()
        &&& self.acceleration.wf()
    }

    /// The store's invariant.
    pub open spec fn wf(&self) -> bool {
        self.backends_wf() && self@.wf()
    }

    /// An empty store.
    pub fn new() -> (r: Self)
        ensures
            r.wf(),
            r@ == StoreModel::<P, V, A>::empty(),
    {
        let r = MyEcsComponentStore {
            max: 0,
            freed: FreeList::new(),
            alive: bit_set_new(),
            reserved: bit_set_new(),
            position: VecStorage::new(),
            velocity: VecStorage::new(),
            acceleration: VecStorage::new(),
            enabled: bit_set_new(),
        };
        assert(r@ =~= StoreModel::<P, V, A>::empty());
        r
    }

    /// An empty store whose backends and presence indexes have room for
    /// `capacity` entities.
    pub fn with_capacity(capacity: usize) -> (r: Self)
        requires
            capacity <= MAX_INDEX,
        ensures
            r.wf(),
            r@ == StoreModel::<P, V, A>::empty(),
    {
        let cap = capacity as u32;
        let r = MyEcsComponentStore {
            max: 0,
            freed: FreeList::new(),
            alive: bit_set_with_capacity(cap),
            reserved: bit_set_with_capacity(cap),
            position: VecStorage::with_capacity(cap),
            velocity: VecStorage::with_capacity(cap),
            acceleration: VecStorage::with_capacity(cap),
            enabled: bit_set_with_capacity(cap),
        };
        assert(r@ =~= StoreModel::<P, V, A>::empty());
        r
    }

    /// Whether `entity` is alive.
    pub fn alive(&self, entity: Entity) -> (r: bool)
        ensures
            r == self@.alive.contains(entity.id()),
    {
        bit_set_contains(&self.alive, entity.index())
    }

    /// Whether `entity` may be built: it is alive, or reserved and not built yet.
    pub fn buildable(&self, entity: Entity) -> (r: bool)
        ensures
            r == self@.buildable(entity.id()),
    {
        bit_set_contains(&self.alive, entity.index()) || bit_set_contains(
            &self.reserved,
            entity.index(),
        )
    }

    /// Whether `next` can hand out an index: one is queued for reuse, or the
    /// high-water mark is below `MAX_INDEX`.
    pub fn can_reserve(&self) -> (r: bool)
        ensures
            r == self@.can_reserve(),
    {
        self.freed.len() > 0 || self.max < MAX_INDEX
    }

    /// Reserves an entity index: the oldest freed index if there is one,
    /// else a fresh one. The entity is not alive until it is built.
    pub fn next(&mut self) -> (r: Entity)
        requires
            old(self).wf(),
            old(self)@.can_reserve(),
        ensures
            final(self).wf(),
            r.id() == old(self)@.next_id(),
            final(self)@ == old(self)@.reserve(),
    {
        let id: u32;
        match self.freed.pop() {
            Some(v) => {
                id = v;
            },
            None => {
                id = self.max;
                self.max = self.max + 1;
            },
        }
        bit_set_add(&mut self.reserved, id);
        proof {
            crate::laws::lemma_reserve_fresh(old(self)@);
            assert(self@ =~= old(self)@.reserve());
        }
        Entity(id)
    }

    /// Makes `builder`'s entity alive and gives it exactly the builder's
    /// components: kinds absent from the builder are cleared.
    pub fn build(&mut self, builder: MyEcsEntityBuilder<P, V, A>)
        requires
            old(self).wf(),
            old(self)@.buildable(builder@.entity),
        ensures
            final(self).wf(),
            final(self)@ == old(self)@.build(builder@),
    {
        let ghost b = builder@;
        let (entity, position, velocity, acceleration, enabled) = builder.take_parts();
        let id = entity.index();
        bit_set_add(&mut self.alive, id);
        bit_set_remove(&mut self.reserved, id);
        apply_to(&mut self.position, id, position);
        apply_to(&mut self.velocity, id, velocity);
        apply_to(&mut self.acceleration, id, acceleration);
        if enabled {
            bit_set_add(&mut self.enabled, id);
        } else {
            bit_set_remove(&mut self.enabled, id);
        }
        assert(self@ =~= old(self)@.build(b));
    }

    /// Makes `entity` alive with no components.
    pub fn reset(&mut self, entity: Entity)
        requires
            old(self).wf(),
            old(self)@.buildable(entity.id()),
        ensures
            final(self).wf(),
            final(self)@ == old(self)@.reset(entity.id()),
    {
        let id = entity.index();
        bit_set_add(&mut self.alive, id);
        bit_set_remove(&mut self.reserved, id);
        self.position.remove(id);
        self.velocity.remove(id);
        self.acceleration.remove(id);
        bit_set_remove(&mut self.enabled, id);
        assert(self@ =~= old(self)@.reset(id));
    }

    /// Kills `entity`: if it was alive, it is no longer, its components are
    /// cleared and its index is queued for reuse. Returns whether it was alive.
    pub fn kill(&mut self, entity: Entity) -> (r: bool)
        requires
            old(self).wf(),
        ensures
            final(self).wf(),
            r == old(self)@.alive.contains(entity.id()),
            final(self)@ == old(self)@.kill(entity.id()),
    {
        let id = entity.index();
        if bit_set_remove(&mut self.alive, id) {
            self.freed.push(id);
            self.position.remove(id);
            self.velocity.remove(id);
            self.acceleration.remove(id);
            bit_set_remove(&mut self.enabled, id);
            assert(self@ =~= old(self)@.kill(id));
            true
        } else {
            assert(self@ =~= old(self)@.kill(id));
            false
        }
    }

    /// The component 'position' of `entity`, if it is alive and has one.
    pub fn position(&self, entity: Entity) -> (r: Option<&P>)
        requires
            self.wf(),
        ensures
            r.is_some() == (self@.alive.contains(entity.id()) && self@.position.contains_key(
                entity.id(),
            )),
            r.is_some() ==> *r.unwrap() == self@.position[entity.id()],
    {
        if !bit_set_contains(&self.alive, entity.index()) {
            return None;
        }
        self.position.get(entity.index())
    }

    /// A mutable reference to the component 'position' of `entity`, if it is
    /// alive and has one.
    #[verifier::spinoff_prover]
    pub fn position_mut(&mut self, entity: Entity) -> (r: Option<&mut P>)
        requires
            old(self).wf(),
        ensures
            r.is_some() == (old(self)@.alive.contains(entity.id()) && old(self)@.position.contains_key(
                entity.id(),
            )),
            r.is_some() ==> *r.unwrap() == old(self)@.position[entity.id()] && final(self)@ == old(
                self,
            )@.set_position(entity.id(), *final(r.unwrap())),
            r.is_none() ==> final(self)@ == old(self)@,
            final(self).backends_wf(),
            final(self)@.wf(),
    {
        if !bit_set_contains(&self.alive, entity.index()) {
            return None;
        }
        assert forall|x: P| #[trigger] self@.set_position(entity.id(), x).wf() by {
            let t = self@.set_position(entity.id(), x);
            assert forall|i: u32| #[trigger] t.position.contains_key(i) implies t.alive.contains(i) by {
                if i != entity.id() {
                    assert(self@.position.contains_key(i));
                }
            }
        }
        self.position.get_mut(entity.index())
    }

    /// Gives `entity` the component 'position', replacing an earlier one.
    pub fn add_position(&mut self, entity: Entity, value: P) -> (r: &mut Self)
        requires
            old(self).wf(),
            old(self)@.alive.contains(entity.id()),
        ensures
            (*r).wf(),
            (*r)@ == old(self)@.set_position(entity.id(), value),
            *final(self) == *final(r),
    {
        self.position.insert(entity.index(), value);
        assert(self@ =~= old(self)@.set_position(entity.id(), value));
        self
    }

    /// Removes the component 'position' from `entity` and returns it, if it had one.
    pub fn del_position(&mut self, entity: Entity) -> (r: Option<P>)
        requires
            old(self).wf(),
            old(self)@.alive.contains(entity.id()),
        ensures
            final(self).wf(),
            final(self)@ == old(self)@.clear_position(entity.id()),
            r.is_some() == old(self)@.position.contains_key(entity.id()),
            r.is_some() ==> r.unwrap() == old(self)@.position[entity.id()],
    {
        let r = self.position.remove(entity.index());
        assert(self@ =~= old(self)@.clear_position(entity.id()));
        r
    }

    /// The backend of the component 'position', with its presence index.
    pub fn position_storage(&self) -> (r: &VecStorage<P>)
        requires
            self.wf(),
        ensures
            r.wf(),
            r@ == self@.position,
    {
        &self.position
    }

    /// The component 'velocity' of `entity`, if it is alive and has one.
    pub fn velocity(&self, entity: Entity) -> (r: Option<&V>)
        requires
            self.wf(),
        ensures
            r.is_some() == (self@.alive.contains(entity.id()) && self@.velocity.contains_key(
                entity.id(),
            )),
            r.is_some() ==> *r.unwrap() == self@.velocity[entity.id()],
    {
        if !bit_set_contains(&self.alive, entity.index()) {
            return None;
        }
        self.velocity.get(entity.index())
    }

    /// A mutable reference to the component 'velocity' of `entity`, if it is
    /// alive and has one.
    #[verifier::spinoff_prover]
    pub fn velocity_mut(&mut self, entity: Entity) -> (r: Option<&mut V>)
        requires
            old(self).wf(),
        ensures
            r.is_some() == (old(self)@.alive.contains(entity.id()) && old(self)@.velocity.contains_key(
                entity.id(),
            )),
            r.is_some() ==> *r.unwrap() == old(self)@.velocity[entity.id()] && final(self)@ == old(
                self,
            )@.set_velocity(entity.id(), *final(r.unwrap())),
            r.is_none() ==> final(self)@ == old(self)@,
            final(self).backends_wf(),
            final(self)@.wf(),
    {
        if !bit_set_contains(&self.alive, entity.index()) {
            return None;
        }
        assert forall|x: V| #[trigger] self@.set_velocity(entity.id(), x).wf() by {
            let t = self@.set_velocity(entity.id(), x);
            assert forall|i: u32| #[trigger] t.velocity.contains_key(i) implies t.alive.contains(i) by {
                if i != entity.id() {
                    assert(self@.velocity.contains_key(i));
                }
            }
        }
        self.velocity.get_mut(entity.index())
    }

    /// Gives `entity` the component 'velocity', replacing an earlier one.
    pub fn add_velocity(&mut self, entity: Entity, value: V) -> (r: &mut Self)
        requires
            old(self).wf(),
            old(self)@.alive.contains(entity.id()),
        ensures
            (*r).wf(),
            (*r)@ == old(self)@.set_velocity(entity.id(), value),
            *final(self) == *final(r),
    {
        self.velocity.insert(entity.index(), value);
        assert(self@ =~= old(self)@.set_velocity(entity.id(), value));
        self
    }

    /// Removes the component 'velocity' from `entity` and returns it, if it had one.
    pub fn del_velocity(&mut self, entity: Entity) -> (r: Option<V>)
        requires
            old(self).wf(),
            old(self)@.alive.contains(entity.id()),
        ensures
            final(self).wf(),
            final(self)@ == old(self)@.clear_velocity(entity.id()),
            r.is_some() == old(self)@.velocity.contains_key(entity.id()),
            r.is_some() ==> r.unwrap() == old(self)@.velocity[entity.id()],
    {
        let r = self.velocity.remove(entity.index());
        assert(self@ =~= old(self)@.clear_velocity(entity.id()));
        r
    }

    /// The backend of the component 'velocity', with its presence index.
    pub fn velocity_storage(&self) -> (r: &VecStorage<V>)
        requires
            self.wf(),
        ensures
            r.wf(),
            r@ == self@.velocity,
    {
        &self.velocity
    }

    /// The component 'acceleration' of `entity`, if it is alive and has one.
    pub fn acceleration(&self, entity: Entity) -> (r: Option<&A>)
        requires
            self.wf(),
        ensures
            r.is_some() == (self@.alive.contains(entity.id()) && self@.acceleration.contains_key(
                entity.id(),
            )),
            r.is_some() ==> *r.unwrap() == self@.acceleration[entity.id()],
    {
        if !bit_set_contains(&self.alive, entity.index()) {
            return None;
        }
        self.acceleration.get(entity.index())
    }

    /// A mutable reference to the component 'acceleration' of `entity`, if it is
    /// alive and has one.
    #[verifier::spinoff_prover]
    pub fn acceleration_mut(&mut self, entity: Entity) -> (r: Option<&mut A>)
        requires
            old(self).wf(),
        ensures
            r.is_some() == (old(self)@.alive.contains(entity.id()) && old(self)@.acceleration.contains_key(
                entity.id(),
            )),
            r.is_some() ==> *r.unwrap() == old(self)@.acceleration[entity.id()] && final(self)@ == old(
                self,
            )@.set_acceleration(entity.id(), *final(r.unwrap())),
            r.is_none() ==> final(self)@ == old(self)@,
            final(self).backends_wf(),
            final(self)@.wf(),
    {
        if !bit_set_contains(&self.alive, entity.index()) {
            return None;
        }
        assert forall|x: A| #[trigger] self@.set_acceleration(entity.id(), x).wf() by {
            let t = self@.set_acceleration(entity.id(), x);
            assert forall|i: u32| #[trigger] t.acceleration.contains_key(i) implies t.alive.contains(i) by {
                if i != entity.id() {
                    assert(self@.acceleration.contains_key(i));
                }
            }
        }
        self.acceleration.get_mut(entity.index())
    }

    /// Gives `entity` the component 'acceleration', replacing an earlier one.
    pub fn add_acceleration(&mut self, entity: Entity, value: A) -> (r: &mut Self)
        requires
            old(self).wf(),
            old(self)@.alive.contains(entity.id()),
        ensures
            (*r).wf(),
            (*r)@ == old(self)@.set_acceleration(entity.id(), value),
            *final(self) == *final(r),
    {
        self.acceleration.insert(entity.index(), value);
        assert(self@ =~= old(self)@.set_acceleration(entity.id(), value));
        self
    }

    /// Removes the component 'acceleration' from `entity` and returns it, if it had one.
    pub fn del_acceleration(&mut self, entity: Entity) -> (r: Option<A>)
        requires
            old(self).wf(),
            old(self)@.alive.contains(entity.id()),
        ensures
            final(self).wf(),
            final(self)@ == old(self)@.clear_acceleration(entity.id()),
            r.is_some() == old(self)@.acceleration.contains_key(entity.id()),
            r.is_some() ==> r.unwrap() == old(self)@.acceleration[entity.id()],
    {
        let r = self.acceleration.remove(entity.index());
        assert(self@ =~= old(self)@.clear_acceleration(entity.id()));
        r
    }

    /// The backend of the component 'acceleration', with its presence index.
    pub fn acceleration_storage(&self) -> (r: &VecStorage<A>)
        requires
            self.wf(),
        ensures
            r.wf(),
            r@ == self@.acceleration,
    {
        &self.acceleration
    }

    /// Whether `entity` is alive and has the marker component 'enabled'.
    pub fn enabled(&self, entity: Entity) -> (r: bool)
        ensures
            r == (self@.alive.contains(entity.id()) && self@.enabled.contains(entity.id())),
    {
        bit_set_contains(&self.alive, entity.index()) && bit_set_contains(
            &self.enabled,
            entity.index(),
        )
    }

    /// Gives `entity` the marker component 'enabled'.
    pub fn add_enabled(&mut self, entity: Entity, value: Enabled) -> (r: &mut Self)
        requires
            old(self).wf(),
            old(self)@.alive.contains(entity.id()),
        ensures
            (*r).wf(),
            (*r)@ == old(self)@.set_enabled(entity.id()),
            *final(self) == *final(r),
    {
        bit_set_add(&mut self.enabled, entity.index());
        assert(self@ =~= old(self)@.set_enabled(entity.id()));
        self
    }

    /// Removes the marker component 'enabled' from `entity`, returning it if
    /// `entity` had it.
    pub fn del_enabled(&mut self, entity: Entity) -> (r: Option<Enabled>)
        requires
            old(self).wf(),
            old(self)@.alive.contains(entity.id()),
        ensures
            final(self).wf(),
            final(self)@ == old(self)@.clear_enabled(entity.id()),
            r.is_some() == old(self)@.enabled.contains(entity.id()),
    {
        let exists = bit_set_remove(&mut self.enabled, entity.index());
        assert(self@ =~= old(self)@.clear_enabled(entity.id()));
        if exists {
            Some(Enabled)
        } else {
            None
        }
    }

    /// The presence index of the marker component 'enabled'.
    pub fn enabled_mask(&self) -> (r: &hibitset::BitSet)
        requires
            self.wf(),
        ensures
            bit_set_members(*r) == self@.enabled,
            bounded(*r),
    {
        assert forall|x: u32| #[trigger] bit_set_members(self.enabled).contains(x) implies x
            < MAX_INDEX by {
            assert(self@.enabled.contains(x));
            assert(self@.alive.contains(x));
        }
        &self.enabled
    }

    /// The set of alive entities.
    pub fn alive_mask(&self) -> (r: &hibitset::BitSet)
        requires
            self.wf(),
        ensures
            bit_set_members(*r) == self@.alive,
            bounded(*r),
    {
        assert forall|x: u32| #[trigger] bit_set_members(self.alive).contains(x) implies x
            < MAX_INDEX by {
            assert(self@.alive.contains(x));
        }
        &self.alive
    }
}

} // verus!
