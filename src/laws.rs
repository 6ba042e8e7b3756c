//! Properties of the store, its allocator and command-buffer flushes.
use vstd::prelude::*;
use crate::bitset::MAX_INDEX;
use crate::model::{
    apply_edit, build_each, edit_each, edit_groups, flush, kill_each, BufferModel, BuilderModel,
    Edit, StoreModel,
};

verus! {

/// One operation on a store: a reservation (`next` or a command buffer's
/// `entity`), a build, a kill, a reset, or a component edit.
pub enum StoreOp<P, V, A> {
    Reserve,
    Build(BuilderModel<P, V, A>),
    Kill(u32),
    Reset(u32),
    Change(Edit<P, V, A>),
}

/// The store after `op`.
pub open spec fn apply_op<P, V, A>(s: StoreModel<P, V, A>, op: StoreOp<P, V, A>) -> StoreModel<
    P,
    V,
    A,
> {
    match op {
        StoreOp::Reserve => s.reserve(),
        StoreOp::Build(b) => s.build(b),
        StoreOp::Kill(id) => s.kill(id),
        StoreOp::Reset(id) => s.reset(id),
        StoreOp::Change(e) => apply_edit(s, e),
    }
}

/// `op` meets the precondition of the store method that performs it.
pub open spec fn op_allowed<P, V, A>(s: StoreModel<P, V, A>, op: StoreOp<P, V, A>) -> bool {
    match op {
        StoreOp::Reserve => s.can_reserve(),
        StoreOp::Build(b) => s.buildable(b.entity),
        StoreOp::Kill(_) => true,
        StoreOp::Reset(id) => s.buildable(id),
        StoreOp::Change(_) => true,
    }
}

/// The store after the operations of `ops`, in order.
pub open spec fn run_ops<P, V, A>(s: StoreModel<P, V, A>, ops: Seq<StoreOp<P, V, A>>) -> StoreModel<
    P,
    V,
    A,
>
    decreases ops.len(),
{
    if ops.len() == 0 {
        s
    } else {
        apply_op(run_ops(s, ops.drop_last()), ops.last())
    }
}

/// Every operation of `ops` meets its precondition when it runs.
pub open spec fn ops_allowed<P, V, A>(s: StoreModel<P, V, A>, ops: Seq<StoreOp<P, V, A>>) -> bool
    decreases ops.len(),
{
    ops.len() == 0 || (ops_allowed(s, ops.drop_last()) && op_allowed(
        run_ops(s, ops.drop_last()),
        ops.last(),
    ))
}

/// Every allowed operation keeps the store's invariant.
pub proof fn lemma_op_keeps_wf<P, V, A>(s: StoreModel<P, V, A>, op: StoreOp<P, V, A>)
    requires
        s.wf(),
        op_allowed(s, op),
    ensures
        apply_op(s, op).wf(),
{
    let t = apply_op(s, op);
    match op {
        StoreOp::Reserve => {
            lemma_reserve_fresh(s);
        },
        StoreOp::Kill(id) => {
            if s.alive.contains(id) {
                assert forall|k: int| 0 <= k < t.freed.len() implies #[trigger] t.freed[k] < t.max
                    && !t.alive.contains(t.freed[k]) && !t.reserved.contains(t.freed[k]) by {
                    if k < s.freed.len() {
                        assert(t.freed[k] == s.freed[k]);
                    }
                }
                assert forall|j: int, k: int| 0 <= j < k < t.freed.len() implies t.freed[j]
                    != t.freed[k] by {
                    if k == s.freed.len() {
                        assert(t.freed[j] == s.freed[j]);
                        assert(!s.alive.contains(s.freed[j]));
                    } else {
                        assert(t.freed[j] == s.freed[j] && t.freed[k] == s.freed[k]);
                    }
                }
            }
        },
        _ => {
            assert forall|k: int| 0 <= k < t.freed.len() implies #[trigger] t.freed[k] < t.max
                && !t.alive.contains(t.freed[k]) && !t.reserved.contains(t.freed[k]) by {
                assert(t.freed[k] == s.freed[k]);
            }
        },
    }
}

/// Any sequence of allowed operations keeps the store's invariant, and
/// each of them meets its precondition at its turn.
pub proof fn lemma_ops_keep_wf<P, V, A>(s: StoreModel<P, V, A>, ops: Seq<StoreOp<P, V, A>>)
    requires
        s.wf(),
        ops_allowed(s, ops),
    ensures
        run_ops(s, ops).wf(),
    decreases ops.len(),
{
    if ops.len() > 0 {
        lemma_ops_keep_wf(s, ops.drop_last());
        lemma_op_keeps_wf(run_ops(s, ops.drop_last()), ops.last());
    }
}

proof fn lemma_prefix_allowed<P, V, A>(s: StoreModel<P, V, A>, ops: Seq<StoreOp<P, V, A>>, k: int)
    requires
        ops_allowed(s, ops),
        0 <= k <= ops.len(),
    ensures
        ops_allowed(s, ops.take(k)),
    decreases ops.len(),
{
    if k < ops.len() {
        lemma_prefix_allowed(s, ops.drop_last(), k);
        assert(ops.drop_last().take(k) =~= ops.take(k));
    } else {
        assert(ops.take(k) =~= ops);
    }
}

/// Over any sequence of allowed operations (reservations through `next` or
/// a command buffer's `entity`, builds, kills, resets, component edits),
/// every reservation hands out an index that is neither alive nor reserved
/// at that moment: no index is ever held by two entities at once.
pub proof fn lemma_ids_never_shared<P, V, A>(
    s: StoreModel<P, V, A>,
    ops: Seq<StoreOp<P, V, A>>,
    k: int,
)
    requires
        s.wf(),
        ops_allowed(s, ops),
        0 <= k < ops.len(),
        ops[k] is Reserve,
    ensures
        !run_ops(s, ops.take(k)).alive.contains(run_ops(s, ops.take(k)).next_id()),
        !run_ops(s, ops.take(k)).reserved.contains(run_ops(s, ops.take(k)).next_id()),
        run_ops(s, ops.take(k + 1)).reserved.contains(run_ops(s, ops.take(k)).next_id()),
{
    lemma_prefix_allowed(s, ops, k + 1);
    assert(ops.take(k + 1).drop_last() =~= ops.take(k));
    assert(ops.take(k + 1).last() == ops[k]);
    lemma_ops_keep_wf(s, ops.take(k));
    lemma_reserve_fresh(run_ops(s, ops.take(k)));
}

/// `op` neither builds nor resets `id`.
pub open spec fn leaves_dead<P, V, A>(op: StoreOp<P, V, A>, id: u32) -> bool {
    match op {
        StoreOp::Build(b) => b.entity != id,
        StoreOp::Reset(i) => i != id,
        _ => true,
    }
}

/// After a kill, the entity stays out of the alive set through any number
/// of reservations, kills and edits, and builds or resets of other entities,
/// even when its index is handed out again.
pub proof fn lemma_dead_until_rebuilt<P, V, A>(
    s: StoreModel<P, V, A>,
    id: u32,
    ops: Seq<StoreOp<P, V, A>>,
)
    requires
        forall|k: int| 0 <= k < ops.len() ==> leaves_dead(#[trigger] ops[k], id),
    ensures
        !run_ops(s.kill(id), ops).alive.contains(id),
    decreases ops.len(),
{
    if ops.len() > 0 {
        assert forall|k: int| 0 <= k < ops.drop_last().len() implies leaves_dead(
            #[trigger] ops.drop_last()[k],
            id,
        ) by {
            assert(ops.drop_last()[k] == ops[k]);
        }
        lemma_dead_until_rebuilt(s, id, ops.drop_last());
        assert(leaves_dead(ops[ops.len() - 1], id));
    }
}

/// `id` is neither alive nor reserved and carries no component.
pub open spec fn gone<P, V, A>(s: StoreModel<P, V, A>, id: u32) -> bool {
    &&& !s.alive.contains(id)
    &&& !s.reserved.contains(id)
    &&& !s.position.contains_key(id)
    &&& !s.velocity.contains_key(id)
    &&& !s.acceleration.contains_key(id)
    &&& !s.enabled.contains(id)
}

/// Reserving hands out an index that is neither alive nor already reserved,
/// nor still queued for reuse afterwards, and keeps the store's invariant:
/// so no index is ever held by two entities at once.
pub proof fn lemma_reserve_fresh<P, V, A>(s: StoreModel<P, V, A>)
    requires
        s.wf(),
        s.can_reserve(),
    ensures
        s.next_id() < MAX_INDEX,
        !s.alive.contains(s.next_id()),
        !s.reserved.contains(s.next_id()),
        s.reserve().reserved.contains(s.next_id()),
        !s.reserve().freed.contains(s.next_id()),
        s.reserve().wf(),
{
    let t = s.reserve();
    if s.freed.len() > 0 {
        assert forall|k: int| 0 <= k < t.freed.len() implies #[trigger] t.freed[k] < t.max
            && !t.alive.contains(t.freed[k]) && !t.reserved.contains(t.freed[k]) by {
            assert(t.freed[k] == s.freed[k + 1]);
            assert(s.freed[0] != s.freed[k + 1]);
        }
        assert(!t.freed.contains(s.next_id())) by {
            if t.freed.contains(s.next_id()) {
                let k = choose|k: int| 0 <= k < t.freed.len() && t.freed[k] == s.next_id();
                assert(s.freed[0] != s.freed[k + 1]);
            }
        }
    } else {
        assert(!t.freed.contains(s.next_id())) by {
            if t.freed.contains(s.next_id()) {
                let k = choose|k: int| 0 <= k < t.freed.len() && t.freed[k] == s.next_id();
                assert(s.freed[k] < s.max);
            }
        }
    }
}

/// Two reservations in a row hand out two different indices.
pub proof fn lemma_reserve_twice_distinct<P, V, A>(s: StoreModel<P, V, A>)
    requires
        s.wf(),
        s.can_reserve(),
        s.reserve().can_reserve(),
    ensures
        s.next_id() != s.reserve().next_id(),
{
    lemma_reserve_fresh(s);
    lemma_reserve_fresh(s.reserve());
}

/// Killing an alive entity makes it dead and queues its index; the next
/// reservation is then a recycled index, never a fresh one, and it is the
/// killed index when no other was queued before.
pub proof fn lemma_kill_recycles<P, V, A>(s: StoreModel<P, V, A>, id: u32)
    requires
        s.wf(),
        s.alive.contains(id),
    ensures
        !s.kill(id).alive.contains(id),
        s.kill(id).freed.last() == id,
        s.kill(id).can_reserve(),
        s.kill(id).next_id() < s.kill(id).max,
        s.freed.len() == 0 ==> s.kill(id).next_id() == id,
{
    let t = s.kill(id);
    if s.freed.len() > 0 {
        assert(t.freed[0] == s.freed[0]);
    }
}

/// Building twice the same entity keeps only the second component set:
/// kinds absent from the second builder are cleared.
pub proof fn lemma_build_replaces<P, V, A>(
    s: StoreModel<P, V, A>,
    first: BuilderModel<P, V, A>,
    second: BuilderModel<P, V, A>,
)
    requires
        first.entity == second.entity,
    ensures
        s.build(first).build(second) == s.build(second),
        s.build(second).alive.contains(second.entity),
        s.build(second).position.contains_key(second.entity) == second.position is Some,
        s.build(second).velocity.contains_key(second.entity) == second.velocity is Some,
        s.build(second).acceleration.contains_key(second.entity) == second.acceleration is Some,
        s.build(second).enabled.contains(second.entity) == second.enabled,
{
    assert(s.build(first).build(second) =~= s.build(second));
}

/// A component written to an alive entity reads back; a removed one is
/// absent.
pub proof fn lemma_position_round_trip<P, V, A>(s: StoreModel<P, V, A>, id: u32, v: P)
    ensures
        s.set_position(id, v).position.contains_key(id),
        s.set_position(id, v).position[id] == v,
        !s.set_position(id, v).clear_position(id).position.contains_key(id),
{
}

proof fn lemma_kill_keeps_gone<P, V, A>(s: StoreModel<P, V, A>, ids: Seq<u32>, id: u32)
    requires
        gone(s, id),
    ensures
        gone(kill_each(s, ids), id),
    decreases ids.len(),
{
    if ids.len() > 0 {
        lemma_kill_keeps_gone(s.kill(ids.last()), ids.drop_last(), id);
    }
}

/// Only alive entities carry components.
pub open spec fn carried_by_alive<P, V, A>(s: StoreModel<P, V, A>) -> bool {
    &&& forall|i: u32| #[trigger] s.position.contains_key(i) ==> s.alive.contains(i)
    &&& forall|i: u32| #[trigger] s.velocity.contains_key(i) ==> s.alive.contains(i)
    &&& forall|i: u32| #[trigger] s.acceleration.contains_key(i) ==> s.alive.contains(i)
    &&& forall|i: u32| #[trigger] s.enabled.contains(i) ==> s.alive.contains(i)
}

proof fn lemma_kill_makes_gone<P, V, A>(s: StoreModel<P, V, A>, ids: Seq<u32>, id: u32)
    requires
        ids.contains(id),
        !s.reserved.contains(id),
        carried_by_alive(s),
    ensures
        gone(kill_each(s, ids), id),
    decreases ids.len(),
{
    let t = s.kill(ids.last());
    if ids.last() == id {
        lemma_kill_keeps_gone(t, ids.drop_last(), id);
    } else {
        let k = choose|k: int| 0 <= k < ids.len() && ids[k] == id;
        assert(ids.drop_last()[k] == id);
        lemma_kill_makes_gone(t, ids.drop_last(), id);
    }
}

proof fn lemma_build_keeps_gone<P, V, A>(
    s: StoreModel<P, V, A>,
    bs: Seq<BuilderModel<P, V, A>>,
    id: u32,
)
    requires
        gone(s, id),
    ensures
        gone(build_each(s, bs), id),
    decreases bs.len(),
{
    if bs.len() > 0 {
        let t = if s.buildable(bs.first().entity) {
            s.build(bs.first())
        } else {
            s
        };
        lemma_build_keeps_gone(t, bs.drop_first(), id);
    }
}

proof fn lemma_edits_keep_gone<P, V, A>(s: StoreModel<P, V, A>, es: Seq<Edit<P, V, A>>, id: u32)
    requires
        gone(s, id),
    ensures
        gone(edit_each(s, es), id),
    decreases es.len(),
{
    if es.len() > 0 {
        lemma_edits_keep_gone(apply_edit(s, es.last()), es.drop_last(), id);
    }
}

proof fn lemma_groups_keep_gone<P, V, A>(
    s: StoreModel<P, V, A>,
    gs: Seq<Seq<Edit<P, V, A>>>,
    n: int,
    id: u32,
)
    requires
        gone(s, id),
    ensures
        gone(edit_groups(s, gs, n), id),
    decreases n,
{
    if n > 0 {
        lemma_groups_keep_gone(s, gs, n - 1, id);
        lemma_edits_keep_gone(edit_groups(s, gs, n - 1), gs[n - 1], id);
    }
}

/// A flush that deletes an entity drops every other change scheduled for
/// it in the same buffer: afterwards it is dead and carries no component.
/// (An index that is reserved but not built yet is left out: deleting it
/// does nothing, so a builder for it in the same buffer still applies.)
pub proof fn lemma_flush_delete_wins<P, V, A>(
    s: StoreModel<P, V, A>,
    b: BufferModel<P, V, A>,
    id: u32,
)
    requires
        s.wf(),
        b.deleted.contains(id),
        !s.reserved.contains(id),
    ensures
        gone(flush(s, b), id),
{
    lemma_kill_makes_gone(s, b.deleted, id);
    lemma_build_keeps_gone(kill_each(s, b.deleted), b.created, id);
    lemma_groups_keep_gone(build_each(kill_each(s, b.deleted), b.created), b.edits(), 8, id);
}

} // verus!
