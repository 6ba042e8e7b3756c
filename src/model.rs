//! Mathematical models of the component store and of entity builders, and
//! the operations on them that the executable code is proved against.
use vstd::prelude::*;
use crate::bitset::MAX_INDEX;

verus! {

/// What an entity builder holds: the target index and one optional slot per
/// component kind (`enabled` is a marker kind, so only its presence counts).
#[verifier::ext_equal]
pub struct BuilderModel<P, V, A> {
    pub entity: u32,
    pub position: Option<P>,
    pub velocity: Option<V>,
    pub acceleration: Option<A>,
    pub enabled: bool,
}

/// What a component store holds.
#[verifier::ext_equal]
pub struct StoreModel<P, V, A> {
    /// Entities that are alive.
    pub alive: Set<u32>,
    /// Entities handed out by the allocator and not built yet.
    pub reserved: Set<u32>,
    /// The allocator's high-water mark: every index below it was handed out.
    pub max: u32,
    /// Freed indices waiting for reuse, oldest first.
    pub freed: Seq<u32>,
    /// The payloads of each component kind.
    pub position: Map<u32, P>,
    pub velocity: Map<u32, V>,
    pub acceleration: Map<u32, A>,
    /// The entities that carry the marker component 'enabled'.
    pub enabled: Set<u32>,
}

/// The payload slot of a builder applied to one component kind.
pub open spec fn apply_slot<T>(m: Map<u32, T>, id: u32, slot: Option<T>) -> Map<u32, T> {
    match slot {
        Some(v) => m.insert(id, v),
        None => m.remove(id),
    }
}

impl<P, V, A> StoreModel<P, V, A> {
    /// A store with no entities, nothing handed out and nothing stored.
    pub open spec fn empty() -> Self {
        StoreModel {
            alive: Set::empty(),
            reserved: Set::empty(),
            max: 0,
            freed: Seq::empty(),
            position: Map::empty(),
            velocity: Map::empty(),
            acceleration: Map::empty(),
            enabled: Set::empty(),
        }
    }

    /// The store's invariant: indices are below the high-water mark, an
    /// index is at most one of alive, reserved and queued for reuse, the
    /// reuse queue holds each index once, and only alive entities carry
    /// components.
    pub open spec fn wf(self) -> bool {
        &&& self.max <= MAX_INDEX
        &&& forall|i: u32| #[trigger] self.alive.contains(i) ==> i < self.max
        &&& forall|i: u32| #[trigger] self.reserved.contains(i) ==> i < self.max && !self.alive.contains(i)
        &&& forall|k: int|
            0 <= k < self.freed.len() ==> #[trigger] self.freed[k] < self.max
                && !self.alive.contains(self.freed[k]) && !self.reserved.contains(self.freed[k])
        &&& forall|j: int, k: int| 0 <= j < k < self.freed.len() ==> self.freed[j] != self.freed[k]
        &&& forall|i: u32| #[trigger] self.position.contains_key(i) ==> self.alive.contains(i)
        &&& forall|i: u32| #[trigger] self.velocity.contains_key(i) ==> self.alive.contains(i)
        &&& forall|i: u32| #[trigger] self.acceleration.contains_key(i) ==> self.alive.contains(i)
        &&& forall|i: u32| #[trigger] self.enabled.contains(i) ==> self.alive.contains(i)
    }

    /// The allocator can hand out one more index.
    pub open spec fn can_reserve(self) -> bool {
        self.freed.len() > 0 || self.max < MAX_INDEX
    }

    /// The index that the allocator hands out next: the oldest freed index,
    /// else the high-water mark.
    pub open spec fn next_id(self) -> u32 {
        if self.freed.len() > 0 {
            self.freed[0]
        } else {
            self.max
        }
    }

    /// The store after the allocator handed out `next_id()`.
    pub open spec fn reserve(self) -> Self {
        if self.freed.len() > 0 {
            StoreModel {
                freed: self.freed.drop_first(),
                reserved: self.reserved.insert(self.freed[0]),
                ..self
            }
        } else {
            StoreModel { max: (self.max + 1) as u32, reserved: self.reserved.insert(self.max), ..self }
        }
    }

    /// `id` may be built: it is alive or reserved.
    pub open spec fn buildable(self, id: u32) -> bool {
        self.alive.contains(id) || self.reserved.contains(id)
    }

    /// The store after building `b`: the entity is alive and carries exactly
    /// the components that the builder holds.
    pub open spec fn build(self, b: BuilderModel<P, V, A>) -> Self {
        StoreModel {
            alive: self.alive.insert(b.entity),
            reserved: self.reserved.remove(b.entity),
            position: apply_slot(self.position, b.entity, b.position),
            velocity: apply_slot(self.velocity, b.entity, b.velocity),
            acceleration: apply_slot(self.acceleration, b.entity, b.acceleration),
            enabled: if b.enabled {
                self.enabled.insert(b.entity)
            } else {
                self.enabled.remove(b.entity)
            },
            ..self
        }
    }

    /// The store after `id` was made alive with no components.
    pub open spec fn reset(self, id: u32) -> Self {
        StoreModel {
            alive: self.alive.insert(id),
            reserved: self.reserved.remove(id),
            position: self.position.remove(id),
            velocity: self.velocity.remove(id),
            acceleration: self.acceleration.remove(id),
            enabled: self.enabled.remove(id),
            ..self
        }
    }

    /// The store after killing `id`: if it was alive it is dead, has no
    /// components and is queued for reuse; otherwise nothing changes.
    pub open spec fn kill(self, id: u32) -> Self {
        if self.alive.contains(id) {
            StoreModel {
                alive: self.alive.remove(id),
                freed: self.freed.push(id),
                position: self.position.remove(id),
                velocity: self.velocity.remove(id),
                acceleration: self.acceleration.remove(id),
                enabled: self.enabled.remove(id),
                ..self
            }
        } else {
            self
        }
    }

    /// The store after `id` got the component 'position' `v`.
    pub open spec fn set_position(self, id: u32, v: P) -> Self {
        StoreModel { position: self.position.insert(id, v), ..self }
    }

    /// The store after `id` lost the component 'position'.
    pub open spec fn clear_position(self, id: u32) -> Self {
        StoreModel { position: self.position.remove(id), ..self }
    }

    /// The store after `id` got the component 'velocity' `v`.
    pub open spec fn set_velocity(self, id: u32, v: V) -> Self {
        StoreModel { velocity: self.velocity.insert(id, v), ..self }
    }

    /// The store after `id` lost the component 'velocity'.
    pub open spec fn clear_velocity(self, id: u32) -> Self {
        StoreModel { velocity: self.velocity.remove(id), ..self }
    }

    /// The store after `id` got the component 'acceleration' `v`.
    pub open spec fn set_acceleration(self, id: u32, v: A) -> Self {
        StoreModel { acceleration: self.acceleration.insert(id, v), ..self }
    }

    /// The store after `id` lost the component 'acceleration'.
    pub open spec fn clear_acceleration(self, id: u32) -> Self {
        StoreModel { acceleration: self.acceleration.remove(id), ..self }
    }

    /// The store after `id` got the marker component 'enabled'.
    pub open spec fn set_enabled(self, id: u32) -> Self {
        StoreModel { enabled: self.enabled.insert(id), ..self }
    }

    /// The store after `id` lost the marker component 'enabled'.
    pub open spec fn clear_enabled(self, id: u32) -> Self {
        StoreModel { enabled: self.enabled.remove(id), ..self }
    }
}


/// One scheduled component edit; it takes effect only on an alive entity.
pub enum Edit<P, V, A> {
    SetPosition(u32, P),
    ClearPosition(u32),
    SetVelocity(u32, V),
    ClearVelocity(u32),
    SetAcceleration(u32, A),
    ClearAcceleration(u32),
    SetEnabled(u32),
    ClearEnabled(u32),
}

/// The store after one scheduled edit: applied if its entity is alive,
/// dropped otherwise.
pub open spec fn apply_edit<P, V, A>(s: StoreModel<P, V, A>, e: Edit<P, V, A>) -> StoreModel<
    P,
    V,
    A,
> {
    match e {
        Edit::SetPosition(k, v) => if s.alive.contains(k) { s.set_position(k, v) } else { s },
        Edit::ClearPosition(k) => if s.alive.contains(k) { s.clear_position(k) } else { s },
        Edit::SetVelocity(k, v) => if s.alive.contains(k) { s.set_velocity(k, v) } else { s },
        Edit::ClearVelocity(k) => if s.alive.contains(k) { s.clear_velocity(k) } else { s },
        Edit::SetAcceleration(k, v) => if s.alive.contains(k) {
            s.set_acceleration(k, v)
        } else {
            s
        },
        Edit::ClearAcceleration(k) => if s.alive.contains(k) {
            s.clear_acceleration(k)
        } else {
            s
        },
        Edit::SetEnabled(k) => if s.alive.contains(k) { s.set_enabled(k) } else { s },
        Edit::ClearEnabled(k) => if s.alive.contains(k) { s.clear_enabled(k) } else { s },
    }
}

/// Kills the entities of `ids`, last one first.
pub open spec fn kill_each<P, V, A>(s: StoreModel<P, V, A>, ids: Seq<u32>) -> StoreModel<P, V, A>
    decreases ids.len(),
{
    if ids.len() == 0 {
        s
    } else {
        kill_each(s.kill(ids.last()), ids.drop_last())
    }
}

/// Builds the builders of `bs` in the order they were scheduled, each only
/// if its entity is buildable at that point.
pub open spec fn build_each<P, V, A>(
    s: StoreModel<P, V, A>,
    bs: Seq<BuilderModel<P, V, A>>,
) -> StoreModel<P, V, A>
    decreases bs.len(),
{
    if bs.len() == 0 {
        s
    } else {
        let t = if s.buildable(bs.first().entity) {
            s.build(bs.first())
        } else {
            s
        };
        build_each(t, bs.drop_first())
    }
}

/// Applies the edits of `es`, last one first.
pub open spec fn edit_each<P, V, A>(s: StoreModel<P, V, A>, es: Seq<Edit<P, V, A>>) -> StoreModel<
    P,
    V,
    A,
>
    decreases es.len(),
{
    if es.len() == 0 {
        s
    } else {
        edit_each(apply_edit(s, es.last()), es.drop_last())
    }
}

/// Scheduled additions of the component 'position', as edits.
pub open spec fn position_sets<P, V, A>(ps: Seq<(u32, P)>) -> Seq<Edit<P, V, A>> {
    ps.map_values(|p: (u32, P)| Edit::SetPosition(p.0, p.1))
}

/// Scheduled removals of the component 'position', as edits.
pub open spec fn position_clears<P, V, A>(ks: Seq<u32>) -> Seq<Edit<P, V, A>> {
    ks.map_values(|k: u32| Edit::ClearPosition(k))
}

/// Scheduled additions of the component 'velocity', as edits.
pub open spec fn velocity_sets<P, V, A>(ps: Seq<(u32, V)>) -> Seq<Edit<P, V, A>> {
    ps.map_values(|p: (u32, V)| Edit::SetVelocity(p.0, p.1))
}

/// Scheduled removals of the component 'velocity', as edits.
pub open spec fn velocity_clears<P, V, A>(ks: Seq<u32>) -> Seq<Edit<P, V, A>> {
    ks.map_values(|k: u32| Edit::ClearVelocity(k))
}

/// Scheduled additions of the component 'acceleration', as edits.
pub open spec fn acceleration_sets<P, V, A>(ps: Seq<(u32, A)>) -> Seq<Edit<P, V, A>> {
    ps.map_values(|p: (u32, A)| Edit::SetAcceleration(p.0, p.1))
}

/// Scheduled removals of the component 'acceleration', as edits.
pub open spec fn acceleration_clears<P, V, A>(ks: Seq<u32>) -> Seq<Edit<P, V, A>> {
    ks.map_values(|k: u32| Edit::ClearAcceleration(k))
}

/// Scheduled additions of the marker component 'enabled', as edits.
pub open spec fn enabled_sets<P, V, A>(ks: Seq<u32>) -> Seq<Edit<P, V, A>> {
    ks.map_values(|k: u32| Edit::SetEnabled(k))
}

/// Scheduled removals of the marker component 'enabled', as edits.
pub open spec fn enabled_clears<P, V, A>(ks: Seq<u32>) -> Seq<Edit<P, V, A>> {
    ks.map_values(|k: u32| Edit::ClearEnabled(k))
}

/// What a command buffer holds. Each list holds an entity at most once.
#[verifier::ext_equal]
pub struct BufferModel<P, V, A> {
    pub created: Seq<BuilderModel<P, V, A>>,
    pub deleted: Seq<u32>,
    pub add_position: Seq<(u32, P)>,
    pub del_position: Seq<u32>,
    pub add_velocity: Seq<(u32, V)>,
    pub del_velocity: Seq<u32>,
    pub add_acceleration: Seq<(u32, A)>,
    pub del_acceleration: Seq<u32>,
    pub add_enabled: Seq<u32>,
    pub del_enabled: Seq<u32>,
}

/// A list that holds each entity at most once.
pub open spec fn distinct(ids: Seq<u32>) -> bool {
    forall|i: int, j: int| 0 <= i < j < ids.len() ==> ids[i] != ids[j]
}

/// A list of pairs whose keys are distinct.
pub open spec fn distinct_keys<T>(ps: Seq<(u32, T)>) -> bool {
    forall|i: int, j: int| 0 <= i < j < ps.len() ==> ps[i].0 != ps[j].0
}

/// The list after scheduling `id`: unchanged if it is there already.
pub open spec fn schedule_id(ids: Seq<u32>, id: u32) -> Seq<u32> {
    if ids.contains(id) {
        ids
    } else {
        ids.push(id)
    }
}

/// The list after scheduling `(id, v)`: an earlier value for `id` is
/// replaced in place, else the pair is appended.
pub open spec fn schedule_pair<T>(ps: Seq<(u32, T)>, id: u32, v: T) -> Seq<(u32, T)> {
    if exists|i: int| 0 <= i < ps.len() && ps[i].0 == id {
        ps.update(choose|i: int| 0 <= i < ps.len() && ps[i].0 == id, (id, v))
    } else {
        ps.push((id, v))
    }
}

impl<P, V, A> BufferModel<P, V, A> {
    /// A buffer with nothing scheduled.
    pub open spec fn empty() -> Self {
        BufferModel {
            created: Seq::empty(),
            deleted: Seq::empty(),
            add_position: Seq::empty(),
            del_position: Seq::empty(),
            add_velocity: Seq::empty(),
            del_velocity: Seq::empty(),
            add_acceleration: Seq::empty(),
            del_acceleration: Seq::empty(),
            add_enabled: Seq::empty(),
            del_enabled: Seq::empty(),
        }
    }

    /// Each list holds an entity at most once.
    pub open spec fn wf(self) -> bool {
        &&& distinct(self.deleted)
        &&& distinct_keys(self.add_position)
        &&& distinct(self.del_position)
        &&& distinct_keys(self.add_velocity)
        &&& distinct(self.del_velocity)
        &&& distinct_keys(self.add_acceleration)
        &&& distinct(self.del_acceleration)
        &&& distinct(self.add_enabled)
        &&& distinct(self.del_enabled)
    }

    /// The component edits, in the order in which the flush applies them:
    /// for each kind its additions, then its removals.
    pub open spec fn edits(self) -> Seq<Seq<Edit<P, V, A>>> {
        seq![
            position_sets::<P, V, A>(self.add_position),
            position_clears::<P, V, A>(self.del_position),
            velocity_sets::<P, V, A>(self.add_velocity),
            velocity_clears::<P, V, A>(self.del_velocity),
            acceleration_sets::<P, V, A>(self.add_acceleration),
            acceleration_clears::<P, V, A>(self.del_acceleration),
            enabled_sets::<P, V, A>(self.add_enabled),
            enabled_clears::<P, V, A>(self.del_enabled),
        ]
    }
}

/// Applies the groups of edits `gs[0..n]` in order.
pub open spec fn edit_groups<P, V, A>(
    s: StoreModel<P, V, A>,
    gs: Seq<Seq<Edit<P, V, A>>>,
    n: int,
) -> StoreModel<P, V, A>
    decreases n,
{
    if n <= 0 {
        s
    } else {
        edit_each(edit_groups(s, gs, n - 1), gs[n - 1])
    }
}

/// The store after a flush of `b`: deletions first, then the new entities,
/// then the component edits.
pub open spec fn flush<P, V, A>(s: StoreModel<P, V, A>, b: BufferModel<P, V, A>) -> StoreModel<
    P,
    V,
    A,
> {
    let built = build_each(kill_each(s, b.deleted), b.created);
    edit_groups(built, b.edits(), 8)
}

} // verus!
