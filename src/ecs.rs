//! The ECS: a component store, the command buffer of its systems and its
//! resource, run one tick at a time.
use vstd::prelude::*;
use crate::bitset::{bit_set_members, MAX_INDEX};
use crate::builder::MyEcsEntityBuilder;
use crate::command::MyEcsCommandBuffer;
use crate::entity::Entity;
use crate::join::join;
use crate::model::{flush, BufferModel, BuilderModel, StoreModel};
use crate::store::MyEcsComponentStore;

verus! {

/// `m` holds the positions after the physics system ran once on every
/// entity of `s` that has both a position and a velocity: each such entity
/// got what `physics` returned for it, the others kept theirs.
pub open spec fn physics_stepped<P, V, A, E, F: Fn(Entity, &P, &V) -> Result<P, E>>(
    s: StoreModel<P, V, A>,
    m: Map<u32, P>,
    physics: F,
) -> bool {
    &&& m.dom() == s.position.dom()
    &&& forall|k: u32| #[trigger]
        m.contains_key(k) ==> if s.velocity.contains_key(k) {
            physics.ensures((Entity(k), &s.position[k], &s.velocity[k]), Ok(m[k]))
        } else {
            m[k] == s.position[k]
        }
}

/// An ECS with the components 'position', 'velocity', 'acceleration' and
/// 'enabled', and the resource 'delta_time'.
pub struct MyEcs<P, V, A, R> {
    components: MyEcsComponentStore<P, V, A>,
    command_buffer: MyEcsCommandBuffer<P, V, A>,
    resource_delta_time: R,
}

/// Collects the resources of an ECS before it is made.
pub struct MyEcsBuilder<R> {
    resource_delta_time: R,
}

impl<R> MyEcsBuilder<R> {
    /// The resource 'delta_time' that the ECS will start with.
    pub closed spec fn delta_time(&self) -> R {
        self.resource_delta_time
    }

    /// A builder whose resource 'delta_time' is the resource type's default.
    pub fn new() -> (r: Self)
        where
            R: Default,
    {
        MyEcsBuilder { resource_delta_time: R::default() }
    }

    /// Makes the ECS: an empty store and an empty command buffer.
    pub fn build<P, V, A>(self) -> (r: MyEcs<P, V, A, R>)
        ensures
            r.wf(),
            r.store()@ == StoreModel::<P, V, A>::empty(),
            r.buffer()@ == BufferModel::<P, V, A>::empty(),
            r.delta_time() == self.delta_time(),
    {
        MyEcs {
            components: MyEcsComponentStore::new(),
            command_buffer: MyEcsCommandBuffer::new(),
            resource_delta_time: self.resource_delta_time,
        }
    }

    /// Makes the ECS with room for `capacity` entities.
    pub fn with_capacity<P, V, A>(self, capacity: usize) -> (r: MyEcs<P, V, A, R>)
        requires
            capacity <= MAX_INDEX,
        ensures
            r.wf(),
            r.store()@ == StoreModel::<P, V, A>::empty(),
            r.buffer()@ == BufferModel::<P, V, A>::empty(),
            r.delta_time() == self.delta_time(),
    {
        MyEcs {
            components: MyEcsComponentStore::with_capacity(capacity),
            command_buffer: MyEcsCommandBuffer::new(),
            resource_delta_time: self.resource_delta_time,
        }
    }

    /// Sets the resource 'delta_time'.
    pub fn resource_delta_time(self, value: R) -> (r: Self)
        ensures
            r.delta_time() == value,
    {
        MyEcsBuilder { resource_delta_time: value }
    }
}

impl<P, V, A, R> MyEcs<P, V, A, R> {
    /// The component store.
    pub closed spec fn store(&self) -> MyEcsComponentStore<P, V, A> {
        self.components
    }

    /// The command buffer that the systems schedule into.
    pub closed spec fn buffer(&self) -> MyEcsCommandBuffer<P, V, A> {
        self.command_buffer
    }

    /// The resource 'delta_time'.
    pub closed spec fn delta_time(&self) -> R {
        self.resource_delta_time
    }

    /// The store and the command buffer are well formed.
    pub open spec fn wf(&self) -> bool {
        self.store().wf() && self.buffer().wf()
    }

    /// A builder for an ECS, its resource 'delta_time' set to the default.
    pub fn builder() -> (r: MyEcsBuilder<R>)
        where
            R: Default,
    {
        MyEcsBuilder::new()
    }

    /// Runs one tick. The only stage runs the physics system on every entity
    /// that has a velocity and a position, in ascending index order, storing
    /// the position it returns; then the stage's command buffer is flushed.
    /// The first error of the system stops the tick and is returned; the
    /// positions already stored stay, nothing else changes and the buffer is
    /// not flushed.
    pub fn run<E, F>(&mut self, physics: F) -> (r: Result<(), E>)
        where
            F: Fn(Entity, &P, &V) -> Result<P, E>,
        requires
            old(self).wf(),
            forall|e: Entity, p: &P, v: &V| physics.requires((e, p, v)),
        ensures
            final(self).wf(),
            final(self).delta_time() == old(self).delta_time(),
            r is Ok ==> exists|m: Map<u32, P>|
                physics_stepped(old(self).store()@, m, physics) && final(self).store()@ == flush(
                    StoreModel { position: m, ..old(self).store()@ },
                    old(self).buffer()@,
                ),
            r is Ok ==> final(self).buffer()@ == BufferModel::<P, V, A>::empty(),
            (forall|k: u32, res: Result<P, E>|
                old(self).store()@.position.contains_key(k) && old(
                    self,
                ).store()@.velocity.contains_key(k) && physics.ensures(
                    (Entity(k), &old(self).store()@.position[k], &old(self).store()@.velocity[k]),
                    res,
                ) ==> res is Ok) ==> r is Ok,
            r is Err ==> exists|k: u32|
                old(self).store()@.position.contains_key(k) && old(
                    self,
                ).store()@.velocity.contains_key(k) && physics.ensures(
                    (Entity(k), &old(self).store()@.position[k], &old(self).store()@.velocity[k]),
                    Err(r->Err_0),
                ),
            r is Err ==> final(self).buffer() == old(self).buffer(),
            r is Err ==> final(self).store()@ == (StoreModel {
                position: final(self).store()@.position,
                ..old(self).store()@
            }) && final(self).store()@.position.dom() == old(self).store()@.position.dom(),
    {
        let ghost s0 = self.components@;
        let mut required: Vec<&hibitset::BitSet> = Vec::new();
        required.push(self.components.velocity_storage().mask());
        required.push(self.components.position_storage().mask());
        let excluded: Vec<&hibitset::BitSet> = Vec::new();
        let ids = join(&required, &excluded);
        proof {
            assert forall|x: u32| ids@.contains(x) <==> (s0.velocity.contains_key(x)
                && s0.position.contains_key(x)) by {
                assert(bit_set_members(*required@[0]).contains(x) == s0.velocity.contains_key(x));
                assert(bit_set_members(*required@[1]).contains(x) == s0.position.contains_key(x));
            }
        }
        let mut i: usize = 0;
        while i < ids.len()
            invariant
                self.components.wf(),
                self.command_buffer == old(self).command_buffer,
                self.command_buffer.wf(),
                s0 == old(self).components@,
                forall|e: Entity, p: &P, v: &V| physics.requires((e, p, v)),
                self.resource_delta_time == old(self).resource_delta_time,
                i <= ids@.len(),
                forall|a: int, b: int| 0 <= a < b < ids@.len() ==> ids@[a] < ids@[b],
                forall|x: u32| ids@.contains(x) <==> (s0.velocity.contains_key(x)
                    && s0.position.contains_key(x)),
                self.components@ == (StoreModel { position: self.components@.position, ..s0 }),
                self.components@.position.dom() == s0.position.dom(),
                forall|a: int|
                    0 <= a < i ==> physics.ensures(
                        (Entity(ids@[a]), &s0.position[ids@[a]], &s0.velocity[ids@[a]]),
                        Ok(self.components@.position[ids@[a]]),
                    ),
                forall|k: u32|
                    s0.position.contains_key(k) && !ids@.subrange(0, i as int).contains(k)
                        ==> self.components@.position[k] == s0.position[k],
            decreases ids@.len() - i,
        {
            let id = ids[i];
            let e = Entity::new(id);
            assert(ids@.contains(id));
            assert(!ids@.subrange(0, i as int).contains(id)) by {
                if ids@.subrange(0, i as int).contains(id) {
                    let a = choose|a: int| 0 <= a < i && ids@.subrange(0, i as int)[a] == id;
                    assert(ids@[a] == ids@[i as int]);
                }
            }
            let result = {
                let p = self.components.position(e).unwrap();
                let v = self.components.velocity(e).unwrap();
                assert(*p == s0.position[id] && *v == s0.velocity[id]);
                physics(e, p, v)
            };
            assert(physics.ensures((Entity(id), &s0.position[id], &s0.velocity[id]), result));
            match result {
                Ok(np) => {
                    let ghost before = self.components@.position;
                    self.components.add_position(e, np);
                    proof {
                        assert(self.components@.position.dom() =~= s0.position.dom());
                        assert forall|k: u32|
                            s0.position.contains_key(k) && !ids@.subrange(0, i + 1).contains(k)
                                implies self.components@.position[k] == s0.position[k] by {
                            assert(k != id) by {
                                assert(ids@.subrange(0, i + 1)[i as int] == id);
                            }
                            if ids@.subrange(0, i as int).contains(k) {
                                let a = choose|a: int|
                                    0 <= a < i && ids@.subrange(0, i as int)[a] == k;
                                assert(ids@.subrange(0, i + 1)[a] == k);
                            }
                        }
                        assert forall|a: int| 0 <= a < i + 1 implies physics.ensures(
                            (Entity(ids@[a]), &s0.position[ids@[a]], &s0.velocity[ids@[a]]),
                            Ok(self.components@.position[ids@[a]]),
                        ) by {
                            if a < i {
                                assert(ids@[a] < ids@[i as int]);
                            }
                        }
                    }
                },
                Err(err) => {
                    assert(s0.position.contains_key(id) && s0.velocity.contains_key(id));
                    return Err(err);
                },
            }
            i = i + 1;
        }
        let ghost m = self.components@.position;
        proof {
            assert(self.components@ == (StoreModel { position: m, ..s0 }));
            assert forall|k: u32| #[trigger] m.contains_key(k) implies if s0.velocity.contains_key(
                k,
            ) {
                physics.ensures((Entity(k), &s0.position[k], &s0.velocity[k]), Ok(m[k]))
            } else {
                m[k] == s0.position[k]
            } by {
                if s0.velocity.contains_key(k) {
                    assert(ids@.contains(k));
                    let a = choose|a: int| 0 <= a < ids@.len() && ids@[a] == k;
                    assert(Entity(ids@[a]) == Entity(k));
                } else {
                    assert(!ids@.contains(k));
                    assert(!ids@.subrange(0, i as int).contains(k)) by {
                        if ids@.subrange(0, i as int).contains(k) {
                            let a = choose|a: int|
                                0 <= a < i && ids@.subrange(0, i as int)[a] == k;
                            assert(ids@[a] == k);
                        }
                    }
                }
            }
            assert(physics_stepped(s0, m, physics));
        }
        self.command_buffer.build(&mut self.components);
        Ok(())
    }

    /// A builder for a newly reserved entity.
    pub fn next(&mut self) -> (r: MyEcsEntityBuilder<P, V, A>)
        requires
            old(self).wf(),
            old(self).store()@.can_reserve(),
        ensures
            final(self).wf(),
            r == MyEcsEntityBuilder::<P, V, A>::empty_for(Entity(old(self).store()@.next_id())),
            r@ == (BuilderModel::<P, V, A> {
                entity: old(self).store()@.next_id(),
                position: None,
                velocity: None,
                acceleration: None,
                enabled: false,
            }),
            !final(self).store()@.alive.contains(r@.entity),
            final(self).store()@ == old(self).store()@.reserve(),
            final(self).buffer() == old(self).buffer(),
            final(self).delta_time() == old(self).delta_time(),
    {
        let e = self.components.next();
        MyEcsEntityBuilder::new(e)
    }

    /// Builds `builder` into the store.
    pub fn build(&mut self, builder: MyEcsEntityBuilder<P, V, A>)
        requires
            old(self).wf(),
            old(self).store()@.buildable(builder@.entity),
        ensures
            final(self).wf(),
            final(self).store()@ == old(self).store()@.build(builder@),
            final(self).buffer() == old(self).buffer(),
            final(self).delta_time() == old(self).delta_time(),
    {
        self.components.build(builder);
    }

    /// The component store.
    pub fn components(&self) -> (r: &MyEcsComponentStore<P, V, A>)
        ensures
            *r == self.store(),
    {
        &self.components
    }

    /// The component store, for changes.
    pub fn components_mut(&mut self) -> (r: &mut MyEcsComponentStore<P, V, A>)
        ensures
            *r == old(self).store(),
            final(self).store() == *final(r),
            final(self).buffer() == old(self).buffer(),
            final(self).delta_time() == old(self).delta_time(),
    {
        &mut self.components
    }
}

} // verus!
