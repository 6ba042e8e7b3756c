use secs::builder::{Enabled, MyEcsEntityBuilder};
use secs::command::MyEcsCommandBuffer;
use secs::store::MyEcsComponentStore;

type Store = MyEcsComponentStore<i32, i64, u8>;
type Buffer = MyEcsCommandBuffer<i32, i64, u8>;

#[test]
fn created_entity_with_component_removed_in_same_buffer() {
    let mut s = Store::new();
    let mut cb = Buffer::new();
    let x = cb.entity(&mut s, |_, b| b.position(1));
    cb.del_position(x);
    assert!(!s.alive(x));
    cb.build(&mut s);
    assert!(s.alive(x));
    assert_eq!(s.position(x), None);
}

#[test]
fn delete_and_add_in_same_buffer_drops_the_add() {
    let mut s = Store::new();
    let e = s.next();
    s.build(MyEcsEntityBuilder::new(e).velocity(1));
    let mut cb = Buffer::new();
    cb.delete(e).position(e, 9).velocity(e, 4).enabled(e, Enabled);
    cb.build(&mut s);
    assert!(!s.alive(e));
    assert_eq!(s.position(e), None);
    assert_eq!(s.velocity(e), None);
    assert!(!s.enabled(e));
}

#[test]
fn entity_reserves_from_the_store_allocator() {
    let mut s = Store::new();
    let a = s.next();
    let mut cb = Buffer::new();
    let b = cb.entity(&mut s, |_, b| b);
    let c = s.next();
    assert_ne!(a, b);
    assert_ne!(b, c);
    assert_ne!(a, c);
    assert_eq!(b.index(), 1);
}

#[test]
fn entity_closure_sees_the_reserved_id() {
    let mut s = Store::new();
    let mut cb = Buffer::new();
    let x = cb.entity(&mut s, |e, b| b.position(e.index() as i32 + 100));
    cb.build(&mut s);
    assert_eq!(s.position(x), Some(&(x.index() as i32 + 100)));
}

#[test]
fn last_scheduled_value_wins() {
    let mut s = Store::new();
    let e = s.next();
    s.build(MyEcsEntityBuilder::new(e));
    let mut cb = Buffer::new();
    cb.position(e, 1).position(e, 2).acceleration(e, 3).acceleration(e, 4);
    cb.build(&mut s);
    assert_eq!(s.position(e), Some(&2));
    assert_eq!(s.acceleration(e), Some(&4));
}

#[test]
fn edits_apply_to_alive_entities_only() {
    let mut s = Store::new();
    let reserved = s.next();
    let alive = s.next();
    s.build(MyEcsEntityBuilder::new(alive).velocity(5).acceleration(6).enabled(Enabled));
    let mut cb = Buffer::new();
    cb.position(reserved, 1)
        .position(alive, 2)
        .del_velocity(alive)
        .del_acceleration(alive)
        .del_enabled(alive)
        .del_position(reserved);
    cb.build(&mut s);
    assert!(!s.alive(reserved));
    assert_eq!(s.position(alive), Some(&2));
    assert_eq!(s.velocity(alive), None);
    assert_eq!(s.acceleration(alive), None);
    assert!(!s.enabled(alive));
}

#[test]
fn flush_empties_the_buffer() {
    let mut s = Store::new();
    let mut cb = Buffer::new();
    let x = cb.entity(&mut s, |_, b| b.velocity(3));
    cb.build(&mut s);
    s.add_velocity(x, 4);
    cb.build(&mut s);
    assert_eq!(s.velocity(x), Some(&4));
}

#[test]
fn deleted_then_recreated_index_is_not_resurrected() {
    let mut s = Store::new();
    let mut cb = Buffer::new();
    // the buffer reserves `x` and keeps a builder for it
    let x = cb.entity(&mut s, |_, b| b.position(9));
    // meanwhile `x` is built directly and then scheduled for deletion
    s.build(MyEcsEntityBuilder::new(x).position(1));
    cb.delete(x);
    cb.build(&mut s);
    assert!(!s.alive(x));
    assert_eq!(s.position(x), None);
    assert!(!s.buildable(x));
    let again = s.next();
    assert_eq!(again, x);
    assert!(s.buildable(again));
}

#[test]
fn later_builder_for_the_same_entity_wins() {
    let mut s = Store::new();
    let mut cb = Buffer::new();
    let x = cb.entity(&mut s, |_, b| b.position(1));
    s.build(MyEcsEntityBuilder::new(x));
    assert!(s.kill(x));
    let y = cb.entity(&mut s, |_, b| b.position(2));
    assert_eq!(x, y);
    cb.build(&mut s);
    assert!(s.alive(x));
    assert_eq!(s.position(x), Some(&2));
}

#[test]
fn deleting_twice_queues_the_index_once() {
    let mut s = Store::new();
    let e = s.next();
    s.build(MyEcsEntityBuilder::new(e));
    let mut cb = Buffer::new();
    cb.delete(e).delete(e);
    cb.build(&mut s);
    assert_eq!(s.next().index(), e.index());
    assert_eq!(s.next().index(), 1);
}

#[test]
fn marker_edits_through_buffer() {
    let mut s = Store::new();
    let e = s.next();
    s.build(MyEcsEntityBuilder::new(e));
    let mut cb = Buffer::new();
    cb.enabled(e, Enabled);
    cb.build(&mut s);
    assert!(s.enabled(e));
    cb.del_enabled(e);
    cb.build(&mut s);
    assert!(!s.enabled(e));
}
