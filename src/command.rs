//! Command buffers: entity creations, deletions and component edits,
//! scheduled while a store is in use and applied to it later in one flush.
use vstd::prelude::*;
use crate::builder::{Enabled, MyEcsEntityBuilder};
use crate::entity::Entity;
use crate::model::{
    flush, BufferModel, edit_groups,
    acceleration_clears, acceleration_sets, build_each, distinct, distinct_keys, edit_each,
    enabled_clears, enabled_sets, kill_each, position_clears, position_sets, schedule_id,
    schedule_pair, velocity_clears, velocity_sets, BuilderModel,
};
use crate::store::MyEcsComponentStore;

verus! {

/// The indices of a list of entities.
pub open spec fn ids_of(es: Seq<Entity>) -> Seq<u32> {
    es.map_values(|e: Entity| e.id())
}

/// A list of (entity, value) pairs keyed by index.
pub open spec fn keyed<T>(ps: Seq<(Entity, T)>) -> Seq<(u32, T)> {
    ps.map_values(|p: (Entity, T)| (p.0.id(), p.1))
}

/// The models of a list of builders.
pub open spec fn models_of<P, V, A>(bs: Seq<MyEcsEntityBuilder<P, V, A>>) -> Seq<
    BuilderModel<P, V, A>,
> {
    bs.map_values(|b: MyEcsEntityBuilder<P, V, A>| b@)
}

/// Schedules `e` in a list that holds each entity at most once.
fn schedule_entity(v: &mut Vec<Entity>, e: Entity)
    requires
        distinct(ids_of(old(v)@)),
    ensures
        ids_of(final(v)@) == schedule_id(ids_of(old(v)@), e.id()),
        distinct(ids_of(final(v)@)),
{
    let mut i: usize = 0;
    while i < v.len()
        invariant
            i <= v@.len(),
            v@ == old(v)@,
            distinct(ids_of(old(v)@)),
            forall|j: int| 0 <= j < i ==> v@[j].id() != e.id(),
        decreases v@.len() - i,
    {
        if v[i].0 == e.0 {
            assert(ids_of(v@)[i as int] == e.id());
            return;
        }
        i = i + 1;
    }
    assert(!ids_of(v@).contains(e.id())) by {
        if ids_of(v@).contains(e.id()) {
            let j = choose|j: int| 0 <= j < ids_of(v@).len() && ids_of(v@)[j] == e.id();
            assert(v@[j].id() == e.id());
        }
    }
    v.push(e);
    assert(ids_of(v@) =~= ids_of(old(v)@).push(e.id()));
}

/// Schedules `(e, x)` in a list whose keys are distinct, replacing an
/// earlier value for `e`.
fn schedule_value<T>(v: &mut Vec<(Entity, T)>, e: Entity, x: T)
    requires
        distinct_keys(keyed(old(v)@)),
    ensures
        keyed(final(v)@) == schedule_pair(keyed(old(v)@), e.id(), x),
        distinct_keys(keyed(final(v)@)),
{
    let mut i: usize = 0;
    while i < v.len()
        invariant
            i <= v@.len(),
            v@ == old(v)@,
            distinct_keys(keyed(old(v)@)),
            forall|j: int| 0 <= j < i ==> v@[j].0.id() != e.id(),
        decreases v@.len() - i,
    {
        if v[i].0.0 == e.0 {
            let ghost ks = keyed(old(v)@);
            assert(ks[i as int].0 == e.id());
            assert(exists|j: int| 0 <= j < ks.len() && ks[j].0 == e.id());
            let ghost c = choose|j: int| 0 <= j < ks.len() && ks[j].0 == e.id();
            assert(c == i) by {
                assert(0 <= c < ks.len() && ks[c].0 == e.id());
                if c < i {
                    assert(v@[c].0.id() != e.id());
                } else if c > i {
                    assert(distinct_keys(ks));
                    assert(ks[i as int].0 != ks[c].0);
                }
            }
            v.set(i, (e, x));
            assert(keyed(v@) =~= ks.update(i as int, (e.id(), x)));
            return;
        }
        i = i + 1;
    }
    assert(!(exists|j: int| 0 <= j < keyed(old(v)@).len() && keyed(old(v)@)[j].0 == e.id())) by {
        if exists|j: int| 0 <= j < keyed(old(v)@).len() && keyed(old(v)@)[j].0 == e.id() {
            let j = choose|j: int| 0 <= j < keyed(old(v)@).len() && keyed(old(v)@)[j].0 == e.id();
            assert(v@[j].0.id() == e.id());
        }
    }
    v.push((e, x));
    assert(keyed(v@) =~= keyed(old(v)@).push((e.id(), x)));
}

/// Kills every entity of `v`, last one first, and empties `v`.
fn drain_kills<P, V, A>(store: &mut MyEcsComponentStore<P, V, A>, v: &mut Vec<Entity>)
    requires
        old(store).wf(),
    ensures
        final(store).wf(),
        final(store)@ == kill_each(old(store)@, ids_of(old(v)@)),
        final(v)@.len() == 0,
{
    while v.len() > 0
        invariant
            store.wf(),
            kill_each(store@, ids_of(v@)) == kill_each(old(store)@, ids_of(old(v)@)),
        decreases v@.len(),
    {
        let ghost before = ids_of(v@);
        let e = v.pop().unwrap();
        assert(ids_of(v@) =~= before.drop_last());
        store.kill(e);
    }
}

/// Builds every builder of `v` whose entity is buildable at that point, in
/// the order they were scheduled, and empties `v`.
fn drain_builds<P, V, A>(
    store: &mut MyEcsComponentStore<P, V, A>,
    v: &mut Vec<MyEcsEntityBuilder<P, V, A>>,
)
    requires
        old(store).wf(),
    ensures
        final(store).wf(),
        final(store)@ == build_each(old(store)@, models_of(old(v)@)),
        final(v)@.len() == 0,
{
    let ghost all = models_of(v@);
    let ghost n = v@.len();
    // Reverse the list so that popping yields the builders in order.
    let mut rev: Vec<MyEcsEntityBuilder<P, V, A>> = Vec::new();
    while v.len() > 0
        invariant
            n == old(v)@.len(),
            all == models_of(old(v)@),
            store@ == old(store)@,
            store.wf(),
            v@.len() + rev@.len() == n,
            forall|i: int| 0 <= i < v@.len() ==> v@[i]@ == all[i],
            forall|i: int| 0 <= i < rev@.len() ==> rev@[i]@ == all[n - 1 - i],
        decreases v@.len(),
    {
        let b = v.pop().unwrap();
        rev.push(b);
    }
    assert(all.subrange(0, n as int) =~= all);
    while rev.len() > 0
        invariant
            store.wf(),
            v@.len() == 0,
            rev@.len() <= n,
            all.len() == n,
            forall|i: int| 0 <= i < rev@.len() ==> rev@[i]@ == all[n - 1 - i],
            build_each(store@, all.subrange(n - rev@.len(), n as int)) == build_each(
                old(store)@,
                all,
            ),
        decreases rev@.len(),
    {
        let ghost k = n - rev@.len();
        let ghost rest = all.subrange(k, n as int);
        let b = rev.pop().unwrap();
        assert(b@ == all[k]);
        assert(rest.first() == b@);
        assert(rest.drop_first() =~= all.subrange(k + 1, n as int));
        if store.buildable(b.entity()) {
            store.build(b);
        }
    }
    assert(all.subrange(n as int, n as int) =~= Seq::<BuilderModel<P, V, A>>::empty());
}

/// Gives each alive entity of `v` its scheduled component 'position', last
/// pair first, and empties `v`.
fn drain_position_sets<P, V, A>(store: &mut MyEcsComponentStore<P, V, A>, v: &mut Vec<(Entity, P)>)
    requires
        old(store).wf(),
    ensures
        final(store).wf(),
        final(store)@ == edit_each(old(store)@, position_sets::<P, V, A>(keyed(old(v)@))),
        final(v)@.len() == 0,
{
    while v.len() > 0
        invariant
            store.wf(),
            edit_each(store@, position_sets::<P, V, A>(keyed(v@))) == edit_each(
                old(store)@,
                position_sets::<P, V, A>(keyed(old(v)@)),
            ),
        decreases v@.len(),
    {
        let ghost before = position_sets::<P, V, A>(keyed(v@));
        let (e, x) = v.pop().unwrap();
        assert(position_sets::<P, V, A>(keyed(v@)) =~= before.drop_last());
        if store.alive(e) {
            store.add_position(e, x);
        }
    }
}

/// Removes the component 'position' from each alive entity of `v`, last one
/// first, and empties `v`.
fn drain_position_clears<P, V, A>(store: &mut MyEcsComponentStore<P, V, A>, v: &mut Vec<Entity>)
    requires
        old(store).wf(),
    ensures
        final(store).wf(),
        final(store)@ == edit_each(old(store)@, position_clears::<P, V, A>(ids_of(old(v)@))),
        final(v)@.len() == 0,
{
    while v.len() > 0
        invariant
            store.wf(),
            edit_each(store@, position_clears::<P, V, A>(ids_of(v@))) == edit_each(
                old(store)@,
                position_clears::<P, V, A>(ids_of(old(v)@)),
            ),
        decreases v@.len(),
    {
        let ghost before = position_clears::<P, V, A>(ids_of(v@));
        let e = v.pop().unwrap();
        assert(position_clears::<P, V, A>(ids_of(v@)) =~= before.drop_last());
        if store.alive(e) {
            store.del_position(e);
        }
    }
}

/// Gives each alive entity of `v` its scheduled component 'velocity', last
/// pair first, and empties `v`.
fn drain_velocity_sets<P, V, A>(store: &mut MyEcsComponentStore<P, V, A>, v: &mut Vec<(Entity, V)>)
    requires
        old(store).wf(),
    ensures
        final(store).wf(),
        final(store)@ == edit_each(old(store)@, velocity_sets::<P, V, A>(keyed(old(v)@))),
        final(v)@.len() == 0,
{
    while v.len() > 0
        invariant
            store.wf(),
            edit_each(store@, velocity_sets::<P, V, A>(keyed(v@))) == edit_each(
                old(store)@,
                velocity_sets::<P, V, A>(keyed(old(v)@)),
            ),
        decreases v@.len(),
    {
        let ghost before = velocity_sets::<P, V, A>(keyed(v@));
        let (e, x) = v.pop().unwrap();
        assert(velocity_sets::<P, V, A>(keyed(v@)) =~= before.drop_last());
        if store.alive(e) {
            store.add_velocity(e, x);
        }
    }
}

/// Removes the component 'velocity' from each alive entity of `v`, last one
/// first, and empties `v`.
fn drain_velocity_clears<P, V, A>(store: &mut MyEcsComponentStore<P, V, A>, v: &mut Vec<Entity>)
    requires
        old(store).wf(),
    ensures
        final(store).wf(),
        final(store)@ == edit_each(old(store)@, velocity_clears::<P, V, A>(ids_of(old(v)@))),
        final(v)@.len() == 0,
{
    while v.len() > 0
        invariant
            store.wf(),
            edit_each(store@, velocity_clears::<P, V, A>(ids_of(v@))) == edit_each(
                old(store)@,
                velocity_clears::<P, V, A>(ids_of(old(v)@)),
            ),
        decreases v@.len(),
    {
        let ghost before = velocity_clears::<P, V, A>(ids_of(v@));
        let e = v.pop().unwrap();
        assert(velocity_clears::<P, V, A>(ids_of(v@)) =~= before.drop_last());
        if store.alive(e) {
            store.del_velocity(e);
        }
    }
}

/// Gives each alive entity of `v` its scheduled component 'acceleration', last
/// pair first, and empties `v`.
fn drain_acceleration_sets<P, V, A>(store: &mut MyEcsComponentStore<P, V, A>, v: &mut Vec<(Entity, A)>)
    requires
        old(store).wf(),
    ensures
        final(store).wf(),
        final(store)@ == edit_each(old(store)@, acceleration_sets::<P, V, A>(keyed(old(v)@))),
        final(v)@.len() == 0,
{
    while v.len() > 0
        invariant
            store.wf(),
            edit_each(store@, acceleration_sets::<P, V, A>(keyed(v@))) == edit_each(
                old(store)@,
                acceleration_sets::<P, V, A>(keyed(old(v)@)),
            ),
        decreases v@.len(),
    {
        let ghost before = acceleration_sets::<P, V, A>(keyed(v@));
        let (e, x) = v.pop().unwrap();
        assert(acceleration_sets::<P, V, A>(keyed(v@)) =~= before.drop_last());
        if store.alive(e) {
            store.add_acceleration(e, x);
        }
    }
}

/// Removes the component 'acceleration' from each alive entity of `v`, last one
/// first, and empties `v`.
fn drain_acceleration_clears<P, V, A>(store: &mut MyEcsComponentStore<P, V, A>, v: &mut Vec<Entity>)
    requires
        old(store).wf(),
    ensures
        final(store).wf(),
        final(store)@ == edit_each(old(store)@, acceleration_clears::<P, V, A>(ids_of(old(v)@))),
        final(v)@.len() == 0,
{
    while v.len() > 0
        invariant
            store.wf(),
            edit_each(store@, acceleration_clears::<P, V, A>(ids_of(v@))) == edit_each(
                old(store)@,
                acceleration_clears::<P, V, A>(ids_of(old(v)@)),
            ),
        decreases v@.len(),
    {
        let ghost before = acceleration_clears::<P, V, A>(ids_of(v@));
        let e = v.pop().unwrap();
        assert(acceleration_clears::<P, V, A>(ids_of(v@)) =~= before.drop_last());
        if store.alive(e) {
            store.del_acceleration(e);
        }
    }
}

/// Gives each alive entity of `v` the marker component 'enabled', last one
/// first, and empties `v`.
fn drain_enabled_sets<P, V, A>(store: &mut MyEcsComponentStore<P, V, A>, v: &mut Vec<Entity>)
    requires
        old(store).wf(),
    ensures
        final(store).wf(),
        final(store)@ == edit_each(old(store)@, enabled_sets::<P, V, A>(ids_of(old(v)@))),
        final(v)@.len() == 0,
{
    while v.len() > 0
        invariant
            store.wf(),
            edit_each(store@, enabled_sets::<P, V, A>(ids_of(v@))) == edit_each(
                old(store)@,
                enabled_sets::<P, V, A>(ids_of(old(v)@)),
            ),
        decreases v@.len(),
    {
        let ghost before = enabled_sets::<P, V, A>(ids_of(v@));
        let e = v.pop().unwrap();
        assert(enabled_sets::<P, V, A>(ids_of(v@)) =~= before.drop_last());
        if store.alive(e) {
            store.add_enabled(e, Enabled);
        }
    }
}

/// Removes the marker component 'enabled' from each alive entity of `v`,
/// last one first, and empties `v`.
fn drain_enabled_clears<P, V, A>(store: &mut MyEcsComponentStore<P, V, A>, v: &mut Vec<Entity>)
    requires
        old(store).wf(),
    ensures
        final(store).wf(),
        final(store)@ == edit_each(old(store)@, enabled_clears::<P, V, A>(ids_of(old(v)@))),
        final(v)@.len() == 0,
{
    while v.len() > 0
        invariant
            store.wf(),
            edit_each(store@, enabled_clears::<P, V, A>(ids_of(v@))) == edit_each(
                old(store)@,
                enabled_clears::<P, V, A>(ids_of(old(v)@)),
            ),
        decreases v@.len(),
    {
        let ghost before = enabled_clears::<P, V, A>(ids_of(v@));
        let e = v.pop().unwrap();
        assert(enabled_clears::<P, V, A>(ids_of(v@)) =~= before.drop_last());
        if store.alive(e) {
            store.del_enabled(e);
        }
    }
}


/// Structural changes scheduled for later: new entities, deletions and
/// per-component additions and removals.
pub struct MyEcsCommandBuffer<P, V, A> {
    new_entities: Vec<MyEcsEntityBuilder<P, V, A>>,
    deleted_entities: Vec<Entity>,
    add_position: Vec<(Entity, P)>,
    del_position: Vec<Entity>,
    add_velocity: Vec<(Entity, V)>,
    del_velocity: Vec<Entity>,
    add_acceleration: Vec<(Entity, A)>,
    del_acceleration: Vec<Entity>,
    add_enabled: Vec<Entity>,
    del_enabled: Vec<Entity>,
}

impl<P, V, A> View for MyEcsCommandBuffer<P, V, A> {
    type V = BufferModel<P, V, A>;

    closed spec fn view(&self) -> BufferModel<P, V, A> {
        BufferModel {
            created: models_of(self.new_entities@),
            deleted: ids_of(self.deleted_entities@),
            add_position: keyed(self.add_position@),
            del_position: ids_of(self.del_position@),
            add_velocity: keyed(self.add_velocity@),
            del_velocity: ids_of(self.del_velocity@),
            add_acceleration: keyed(self.add_acceleration@),
            del_acceleration: ids_of(self.del_acceleration@),
            add_enabled: ids_of(self.add_enabled@),
            del_enabled: ids_of(self.del_enabled@),
        }
    }
}

impl<P, V, A> MyEcsCommandBuffer<P, V, A> {
    /// Each list holds an entity at most once.
    pub open spec fn wf(&self) -> bool {
        self@.wf()
    }

    /// A buffer with nothing scheduled.
    pub fn new() -> (r: Self)
        ensures
            r.wf(),
            r@ == BufferModel::<P, V, A>::empty(),
    {
        let r = MyEcsCommandBuffer {
            new_entities: Vec::new(),
            deleted_entities: Vec::new(),
            add_position: Vec::new(),
            del_position: Vec::new(),
            add_velocity: Vec::new(),
            del_velocity: Vec::new(),
            add_acceleration: Vec::new(),
            del_acceleration: Vec::new(),
            add_enabled: Vec::new(),
            del_enabled: Vec::new(),
        };
        assert(r@ =~= BufferModel::<P, V, A>::empty());
        r
    }

    /// Schedules the creation of an entity: reserves its index from `store`
    /// right away, lets `fun` fill a builder for it (`fun` keeps the
    /// builder's entity), and keeps the builder for the flush. Returns the
    /// reserved entity.
    pub fn entity<F>(&mut self, store: &mut MyEcsComponentStore<P, V, A>, fun: F) -> (r: Entity)
        where
            F: FnOnce(Entity, MyEcsEntityBuilder<P, V, A>) -> MyEcsEntityBuilder<P, V, A>,
        requires
            old(store).wf(),
            old(store)@.can_reserve(),
            old(self).wf(),
            forall|e: Entity, b: MyEcsEntityBuilder<P, V, A>| fun.requires((e, b)),
            forall|e: Entity, b: MyEcsEntityBuilder<P, V, A>, out: MyEcsEntityBuilder<P, V, A>|
                fun.ensures((e, b), out) ==> out@.entity == b@.entity,
        ensures
            final(store).wf(),
            final(self).wf(),
            r.id() == old(store)@.next_id(),
            final(store)@ == old(store)@.reserve(),
            exists|b: MyEcsEntityBuilder<P, V, A>|
                fun.ensures((r, MyEcsEntityBuilder::<P, V, A>::empty_for(r)), b) && final(self)@
                    == (BufferModel { created: old(self)@.created.push(b@), ..old(self)@ }),
            final(self)@.created.last().entity == r.id(),
    {
        let entity = store.next();
        let builder = MyEcsEntityBuilder::new(entity);
        let built = fun(entity, builder);
        self.new_entities.push(built);
        assert(self@ =~= (BufferModel { created: old(self)@.created.push(built@), ..old(self)@ }));
        entity
    }

    /// Applies everything scheduled to `store` and empties the buffer: first
    /// the deletions, then the new entities (each only if its entity is still
    /// reserved or alive), then the component edits, which are dropped for
    /// entities that are not alive by then. New entities are built in the
    /// order they were scheduled, so of two builders for one entity the later
    /// one wins; the other lists are applied last entry first.
    pub fn build(&mut self, store: &mut MyEcsComponentStore<P, V, A>)
        requires
            old(store).wf(),
            old(self).wf(),
        ensures
            final(store).wf(),
            final(store)@ == flush(old(store)@, old(self)@),
            final(self).wf(),
            final(self)@ == BufferModel::<P, V, A>::empty(),
    {
        let ghost b = self@;
        let ghost gs = b.edits();
        drain_kills(store, &mut self.deleted_entities);
        drain_builds(store, &mut self.new_entities);
        let ghost built = store@;
        assert(edit_groups(built, gs, 0) == built);
        drain_position_sets(store, &mut self.add_position);
        assert(store@ == edit_groups(built, gs, 1));
        drain_position_clears(store, &mut self.del_position);
        assert(store@ == edit_groups(built, gs, 2));
        drain_velocity_sets(store, &mut self.add_velocity);
        assert(store@ == edit_groups(built, gs, 3));
        drain_velocity_clears(store, &mut self.del_velocity);
        assert(store@ == edit_groups(built, gs, 4));
        drain_acceleration_sets(store, &mut self.add_acceleration);
        assert(store@ == edit_groups(built, gs, 5));
        drain_acceleration_clears(store, &mut self.del_acceleration);
        assert(store@ == edit_groups(built, gs, 6));
        drain_enabled_sets(store, &mut self.add_enabled);
        assert(store@ == edit_groups(built, gs, 7));
        drain_enabled_clears(store, &mut self.del_enabled);
        assert(store@ == edit_groups(built, gs, 8));
        assert(self@ =~= BufferModel::<P, V, A>::empty());
    }

    /// Schedules the deletion of `entity`.
    pub fn delete(&mut self, entity: Entity) -> (r: &mut Self)
        requires
            old(self).wf(),
        ensures
            (*r).wf(),
            (*r)@ == (BufferModel {
                deleted: schedule_id(old(self)@.deleted, entity.id()),
                ..old(self)@
            }),
            *final(self) == *final(r),
    {
        schedule_entity(&mut self.deleted_entities, entity);
        assert(self@ =~= (BufferModel {
            deleted: schedule_id(old(self)@.deleted, entity.id()),
            ..old(self)@
        }));
        self
    }

    /// Schedules giving `entity` the component 'position'; a later call for the
    /// same entity replaces the value.
    pub fn position(&mut self, entity: Entity, value: P) -> (r: &mut Self)
        requires
            old(self).wf(),
        ensures
            (*r).wf(),
            (*r)@ == (BufferModel {
                add_position: schedule_pair(old(self)@.add_position, entity.id(), value),
                ..old(self)@
            }),
            *final(self) == *final(r),
    {
        schedule_value(&mut self.add_position, entity, value);
        assert(self@ =~= (BufferModel {
            add_position: schedule_pair(old(self)@.add_position, entity.id(), value),
            ..old(self)@
        }));
        self
    }

    /// Schedules removing the component 'position' from `entity`.
    pub fn del_position(&mut self, entity: Entity) -> (r: &mut Self)
        requires
            old(self).wf(),
        ensures
            (*r).wf(),
            (*r)@ == (BufferModel {
                del_position: schedule_id(old(self)@.del_position, entity.id()),
                ..old(self)@
            }),
            *final(self) == *final(r),
    {
        schedule_entity(&mut self.del_position, entity);
        assert(self@ =~= (BufferModel {
            del_position: schedule_id(old(self)@.del_position, entity.id()),
            ..old(self)@
        }));
        self
    }

    /// Schedules giving `entity` the component 'velocity'; a later call for the
    /// same entity replaces the value.
    pub fn velocity(&mut self, entity: Entity, value: V) -> (r: &mut Self)
        requires
            old(self).wf(),
        ensures
            (*r).wf(),
            (*r)@ == (BufferModel {
                add_velocity: schedule_pair(old(self)@.add_velocity, entity.id(), value),
                ..old(self)@
            }),
            *final(self) == *final(r),
    {
        schedule_value(&mut self.add_velocity, entity, value);
        assert(self@ =~= (BufferModel {
            add_velocity: schedule_pair(old(self)@.add_velocity, entity.id(), value),
            ..old(self)@
        }));
        self
    }

    /// Schedules removing the component 'velocity' from `entity`.
    pub fn del_velocity(&mut self, entity: Entity) -> (r: &mut Self)
        requires
            old(self).wf(),
        ensures
            (*r).wf(),
            (*r)@ == (BufferModel {
                del_velocity: schedule_id(old(self)@.del_velocity, entity.id()),
                ..old(self)@
            }),
            *final(self) == *final(r),
    {
        schedule_entity(&mut self.del_velocity, entity);
        assert(self@ =~= (BufferModel {
            del_velocity: schedule_id(old(self)@.del_velocity, entity.id()),
            ..old(self)@
        }));
        self
    }

    /// Schedules giving `entity` the component 'acceleration'; a later call for the
    /// same entity replaces the value.
    pub fn acceleration(&mut self, entity: Entity, value: A) -> (r: &mut Self)
        requires
            old(self).wf(),
        ensures
            (*r).wf(),
            (*r)@ == (BufferModel {
                add_acceleration: schedule_pair(old(self)@.add_acceleration, entity.id(), value),
                ..old(self)@
            }),
            *final(self) == *final(r),
    {
        schedule_value(&mut self.add_acceleration, entity, value);
        assert(self@ =~= (BufferModel {
            add_acceleration: schedule_pair(old(self)@.add_acceleration, entity.id(), value),
            ..old(self)@
        }));
        self
    }

    /// Schedules removing the component 'acceleration' from `entity`.
    pub fn del_acceleration(&mut self, entity: Entity) -> (r: &mut Self)
        requires
            old(self).wf(),
        ensures
            (*r).wf(),
            (*r)@ == (BufferModel {
                del_acceleration: schedule_id(old(self)@.del_acceleration, entity.id()),
                ..old(self)@
            }),
            *final(self) == *final(r),
    {
        schedule_entity(&mut self.del_acceleration, entity);
        assert(self@ =~= (BufferModel {
            del_acceleration: schedule_id(old(self)@.del_acceleration, entity.id()),
            ..old(self)@
        }));
        self
    }

    /// Schedules giving `entity` the marker component 'enabled'.
    pub fn enabled(&mut self, entity: Entity, value: Enabled) -> (r: &mut Self)
        requires
            old(self).wf(),
        ensures
            (*r).wf(),
            (*r)@ == (BufferModel {
                add_enabled: schedule_id(old(self)@.add_enabled, entity.id()),
                ..old(self)@
            }),
            *final(self) == *final(r),
    {
        schedule_entity(&mut self.add_enabled, entity);
        assert(self@ =~= (BufferModel {
            add_enabled: schedule_id(old(self)@.add_enabled, entity.id()),
            ..old(self)@
        }));
        self
    }

    /// Schedules removing the marker component 'enabled' from `entity`.
    pub fn del_enabled(&mut self, entity: Entity) -> (r: &mut Self)
        requires
            old(self).wf(),
        ensures
            (*r).wf(),
            (*r)@ == (BufferModel {
                del_enabled: schedule_id(old(self)@.del_enabled, entity.id()),
                ..old(self)@
            }),
            *final(self) == *final(r),
    {
        schedule_entity(&mut self.del_enabled, entity);
        assert(self@ =~= (BufferModel {
            del_enabled: schedule_id(old(self)@.del_enabled, entity.id()),
            ..old(self)@
        }));
        self
    }
}

} // verus!
