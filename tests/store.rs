use secs::builder::{Enabled, MyEcsEntityBuilder};
use secs::entity::Entity;
use secs::store::MyEcsComponentStore;

type Store = MyEcsComponentStore<i32, i64, u8>;

#[test]
fn entity_index_round_trip() {
    let e = Entity::new(42);
    assert_eq!(e.index(), 42);
    assert_eq!(e, Entity::new(42));
    assert_ne!(e, Entity::new(43));
}

#[test]
fn next_hands_out_fresh_indices_in_order() {
    let mut s = Store::new();
    assert_eq!(s.next().index(), 0);
    assert_eq!(s.next().index(), 1);
    assert_eq!(s.next().index(), 2);
}

#[test]
fn reserved_entity_is_not_alive_until_built() {
    let mut s = Store::new();
    let e = s.next();
    assert!(!s.alive(e));
    assert!(s.buildable(e));
    s.build(MyEcsEntityBuilder::new(e));
    assert!(s.alive(e));
}

#[test]
fn never_allocated_index_is_not_buildable() {
    let s = Store::with_capacity(16);
    assert!(!s.buildable(Entity::new(3)));
    assert!(s.can_reserve());
}

#[test]
fn kill_recycles_index_before_fresh_ones() {
    let mut s = Store::new();
    let a = s.next();
    let b = s.next();
    s.build(MyEcsEntityBuilder::new(a).position(1));
    s.build(MyEcsEntityBuilder::new(b).position(2));
    assert!(s.kill(a));
    assert!(!s.alive(a));
    assert_eq!(s.position(a), None);
    let c = s.next();
    assert_eq!(c.index(), a.index());
    assert!(!s.alive(c));
    let d = s.next();
    assert_eq!(d.index(), 2);
}

#[test]
fn recycled_indices_come_back_oldest_first() {
    let mut s = Store::new();
    let ids: Vec<Entity> = (0..4).map(|_| s.next()).collect();
    for e in &ids {
        s.build(MyEcsEntityBuilder::new(*e));
    }
    assert!(s.kill(ids[2]));
    assert!(s.kill(ids[0]));
    assert_eq!(s.next().index(), 2);
    assert_eq!(s.next().index(), 0);
    assert_eq!(s.next().index(), 4);
}

#[test]
fn kill_of_dead_entity_returns_false() {
    let mut s = Store::new();
    let e = s.next();
    assert!(!s.kill(e));
    s.build(MyEcsEntityBuilder::new(e));
    assert!(s.kill(e));
    assert!(!s.kill(e));
    // the index was queued once only
    assert_eq!(s.next().index(), e.index());
    assert_eq!(s.next().index(), 1);
}

#[test]
fn build_replaces_the_component_set() {
    let mut s = Store::new();
    let e = s.next();
    s.build(
        MyEcsEntityBuilder::new(e)
            .position(1)
            .velocity(2)
            .acceleration(3)
            .enabled(Enabled),
    );
    assert_eq!(s.position(e), Some(&1));
    assert_eq!(s.velocity(e), Some(&2));
    assert_eq!(s.acceleration(e), Some(&3));
    assert!(s.enabled(e));
    s.build(MyEcsEntityBuilder::new(e).velocity(20));
    assert_eq!(s.position(e), None);
    assert_eq!(s.velocity(e), Some(&20));
    assert_eq!(s.acceleration(e), None);
    assert!(!s.enabled(e));
}

#[test]
fn add_then_read_and_remove_then_read() {
    let mut s = Store::new();
    let e = s.next();
    s.build(MyEcsEntityBuilder::new(e));
    assert_eq!(s.position(e), None);
    s.add_position(e, 7).add_velocity(e, 8).add_acceleration(e, 9);
    assert_eq!(s.position(e), Some(&7));
    assert_eq!(s.velocity(e), Some(&8));
    assert_eq!(s.acceleration(e), Some(&9));
    assert!(s.position_storage().contains(e.index()));
    assert_eq!(s.del_position(e), Some(7));
    assert_eq!(s.position(e), None);
    assert!(!s.position_storage().contains(e.index()));
    assert_eq!(s.del_position(e), None);
    assert_eq!(s.del_velocity(e), Some(8));
    assert_eq!(s.del_acceleration(e), Some(9));
    assert_eq!(s.velocity(e), None);
    assert_eq!(s.acceleration(e), None);
}

#[test]
fn add_replaces_an_earlier_value() {
    let mut s = Store::new();
    let e = s.next();
    s.build(MyEcsEntityBuilder::new(e).position(1));
    s.add_position(e, 2);
    assert_eq!(s.position(e), Some(&2));
}

#[test]
fn mutable_accessors_write_through() {
    let mut s = Store::new();
    let e = s.next();
    s.build(MyEcsEntityBuilder::new(e).position(1).velocity(2).acceleration(3));
    *s.position_mut(e).unwrap() += 10;
    *s.velocity_mut(e).unwrap() += 10;
    *s.acceleration_mut(e).unwrap() += 10;
    assert_eq!(s.position(e), Some(&11));
    assert_eq!(s.velocity(e), Some(&12));
    assert_eq!(s.acceleration(e), Some(&13));
    s.del_velocity(e);
    assert!(s.velocity_mut(e).is_none());
}

#[test]
fn accessors_of_dead_entity_are_empty() {
    let mut s = Store::new();
    let e = s.next();
    s.build(MyEcsEntityBuilder::new(e).position(1).enabled(Enabled));
    s.kill(e);
    assert_eq!(s.position(e), None);
    assert!(s.position_mut(e).is_none());
    assert!(!s.enabled(e));
}

#[test]
fn marker_component_presence() {
    let mut s = Store::new();
    let e = s.next();
    s.build(MyEcsEntityBuilder::new(e));
    assert!(!s.enabled(e));
    assert_eq!(s.del_enabled(e), None);
    s.add_enabled(e, Enabled);
    assert!(s.enabled(e));
    assert_eq!(s.del_enabled(e), Some(Enabled));
    assert!(!s.enabled(e));
}

#[test]
fn reset_clears_components_and_keeps_alive() {
    let mut s = Store::new();
    let e = s.next();
    s.build(MyEcsEntityBuilder::new(e).position(1).enabled(Enabled));
    s.reset(e);
    assert!(s.alive(e));
    assert_eq!(s.position(e), None);
    assert!(!s.enabled(e));
    let f = s.next();
    s.reset(f);
    assert!(s.alive(f));
}

#[test]
fn large_index_grows_the_dense_backend() {
    let mut s = Store::new();
    let mut last = s.next();
    for _ in 0..1000 {
        last = s.next();
    }
    assert_eq!(last.index(), 1000);
    s.build(MyEcsEntityBuilder::new(last).position(5));
    assert_eq!(s.position(last), Some(&5));
}

#[test]
fn builder_setters_in_place() {
    let mut b: MyEcsEntityBuilder<i32, i64, u8> = MyEcsEntityBuilder::new(Entity::new(0));
    b.add_position(1).add_velocity(2).add_acceleration(3).add_enabled(Enabled);
    b.del_velocity().del_enabled();
    assert_eq!(b.entity(), Entity::new(0));
    let mut s = Store::new();
    let e = s.next();
    assert_eq!(e, b.entity());
    s.build(b);
    assert_eq!(s.position(e), Some(&1));
    assert_eq!(s.velocity(e), None);
    assert_eq!(s.acceleration(e), Some(&3));
    assert!(!s.enabled(e));
    let mut c: MyEcsEntityBuilder<i32, i64, u8> = MyEcsEntityBuilder::new(e);
    c.add_position(4).del_position().del_acceleration();
    s.build(c);
    assert_eq!(s.position(e), None);
    assert_eq!(s.acceleration(e), None);
}

#[test]
fn capacity_of_reuse_queue_allows_reservation_at_the_limit() {
    let mut s = Store::with_capacity(4);
    let e = s.next();
    s.build(MyEcsEntityBuilder::new(e));
    assert!(s.kill(e));
    assert!(s.can_reserve());
    assert_eq!(s.next(), e);
}

#[test]
fn default_store_is_empty() {
    let mut s: Store = Default::default();
    let e = s.next();
    assert_eq!(e.index(), 0);
    assert!(!s.alive(e));
}
