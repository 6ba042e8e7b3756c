use secs::ecs::MyEcs;
use secs::entity::Entity;

type Ecs = MyEcs<i32, i32, i32, u32>;

#[test]
fn run_moves_entities_that_have_a_velocity() {
    let mut ecs: Ecs = Ecs::builder().resource_delta_time(7).build();
    let b = ecs.next().position(10).velocity(3);
    let moving = b.entity();
    ecs.build(b);
    let b = ecs.next().position(20);
    let still = b.entity();
    ecs.build(b);
    let r: Result<(), String> = ecs.run(|_, p: &i32, v: &i32| Ok(p + v));
    assert!(r.is_ok());
    assert_eq!(ecs.components().position(moving), Some(&13));
    assert_eq!(ecs.components().position(still), Some(&20));
    let r: Result<(), String> = ecs.run(|_, p: &i32, v: &i32| Ok(p + v));
    assert!(r.is_ok());
    assert_eq!(ecs.components().position(moving), Some(&16));
}

#[test]
fn run_passes_the_entity_to_the_system() {
    let mut ecs: Ecs = Ecs::builder().with_capacity(8);
    for _ in 0..3 {
        let b = ecs.next().position(0).velocity(1);
        ecs.build(b);
    }
    let r: Result<(), ()> = ecs.run(|e: Entity, _, _| Ok(e.index() as i32));
    assert!(r.is_ok());
    for i in 0..3u32 {
        assert_eq!(ecs.components().position(Entity::new(i)), Some(&(i as i32)));
    }
}

#[test]
fn run_stops_at_the_first_error() {
    let mut ecs: Ecs = Ecs::builder().build();
    for i in 0..3 {
        let b = ecs.next().position(i).velocity(1);
        ecs.build(b);
    }
    let r: Result<(), u32> = ecs.run(|e: Entity, p: &i32, v: &i32| {
        if e.index() == 1 {
            Err(99)
        } else {
            Ok(p + v)
        }
    });
    assert_eq!(r, Err(99));
    assert_eq!(ecs.components().position(Entity::new(0)), Some(&1));
    assert_eq!(ecs.components().position(Entity::new(1)), Some(&1));
    assert_eq!(ecs.components().position(Entity::new(2)), Some(&2));
}

#[test]
fn components_mut_changes_the_store() {
    let mut ecs: Ecs = Ecs::builder().resource_delta_time(3).build();
    let b = ecs.next();
    let e = b.entity();
    ecs.build(b);
    ecs.components_mut().add_velocity(e, 4);
    assert_eq!(ecs.components().velocity(e), Some(&4));
    assert!(ecs.components_mut().kill(e));
    assert!(!ecs.components().alive(e));
}

#[test]
fn run_with_far_apart_entities_moves_the_joined_one() {
    let mut ecs: Ecs = Ecs::builder().with_capacity(4);
    let b = ecs.next().position(1).velocity(1);
    let first = b.entity();
    ecs.build(b);
    let mut last = first;
    for _ in 0..262144 {
        last = ecs.next().entity();
    }
    assert_eq!(last.index(), 262144);
    ecs.build(secs::builder::MyEcsEntityBuilder::new(last).velocity(5));
    let r: Result<(), ()> = ecs.run(|_, p: &i32, v: &i32| Ok(p + v));
    assert!(r.is_ok());
    assert_eq!(ecs.components().position(first), Some(&2));
    assert_eq!(ecs.components().position(last), None);
}

#[test]
fn run_on_empty_join_succeeds() {
    let mut ecs: Ecs = Ecs::builder().build();
    let r: Result<(), u8> = ecs.run(|_, _, _| Err(1));
    assert_eq!(r, Ok(()));
}
