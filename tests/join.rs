use secs::builder::{Enabled, MyEcsEntityBuilder};
use secs::entity::Entity;
use secs::join::join;
use secs::store::MyEcsComponentStore;

type Store = MyEcsComponentStore<i32, i64, u8>;

fn store_with(sets: &[(bool, bool, bool)]) -> (Store, Vec<Entity>) {
    let mut s = Store::new();
    let mut es = Vec::new();
    for &(p, v, en) in sets {
        let e = s.next();
        let mut b = MyEcsEntityBuilder::new(e);
        if p {
            b.add_position(e.index() as i32 * 10);
        }
        if v {
            b.add_velocity(e.index() as i64);
        }
        if en {
            b.add_enabled(Enabled);
        }
        s.build(b);
        es.push(e);
    }
    (s, es)
}

#[test]
fn join_single_entity_then_delete_then_recycle() {
    let mut s = Store::new();
    let e = s.next();
    s.build(MyEcsEntityBuilder::new(e).position(5));
    let ids = join(&vec![s.position_storage().mask()], &vec![]);
    assert_eq!(ids, vec![e.index()]);
    assert_eq!(s.position(Entity::new(ids[0])), Some(&5));
    assert!(s.kill(e));
    let ids = join(&vec![s.position_storage().mask()], &vec![]);
    assert!(ids.is_empty());
    assert_eq!(s.next().index(), e.index());
}

#[test]
fn join_is_the_intersection_in_ascending_order() {
    let (s, _) = store_with(&[
        (true, true, false),
        (true, false, false),
        (false, true, false),
        (true, true, true),
        (true, true, false),
    ]);
    let both = join(
        &vec![s.position_storage().mask(), s.velocity_storage().mask()],
        &vec![],
    );
    assert_eq!(both, vec![0, 3, 4]);
    let only_pos = join(&vec![s.position_storage().mask()], &vec![]);
    assert_eq!(only_pos, vec![0, 1, 3, 4]);
}

#[test]
fn join_leaves_out_excluded_masks() {
    let (s, _) = store_with(&[
        (true, true, false),
        (true, true, true),
        (true, false, false),
        (true, true, false),
    ]);
    let ids = join(
        &vec![s.position_storage().mask(), s.velocity_storage().mask()],
        &vec![s.enabled_mask()],
    );
    assert_eq!(ids, vec![0, 3]);
    let ids = join(&vec![s.position_storage().mask()], &vec![s.velocity_storage().mask()]);
    assert_eq!(ids, vec![2]);
}

#[test]
fn join_of_three_masks_with_alive() {
    let (mut s, es) = store_with(&[
        (true, true, true),
        (true, true, true),
        (true, true, false),
        (true, true, true),
    ]);
    s.kill(es[1]);
    let ids = join(
        &vec![
            s.alive_mask(),
            s.position_storage().mask(),
            s.velocity_storage().mask(),
            s.enabled_mask(),
        ],
        &vec![],
    );
    assert_eq!(ids, vec![0, 3]);
}

#[test]
fn join_of_disjoint_masks_is_empty() {
    let (s, _) = store_with(&[(true, false, false), (false, true, false)]);
    let ids = join(
        &vec![s.position_storage().mask(), s.velocity_storage().mask()],
        &vec![],
    );
    assert!(ids.is_empty());
}

#[test]
fn join_with_far_apart_indices() {
    let mut pos: secs::storage::VecStorage<i32> = secs::storage::VecStorage::new();
    let mut vel: secs::storage::OrderedStorage<i32> = secs::storage::OrderedStorage::new();
    pos.insert(0, 1);
    vel.insert(0, 2);
    vel.insert(262144, 3);
    vel.insert(32768, 4);
    assert_eq!(join(&vec![pos.mask(), vel.mask()], &vec![]), vec![0]);
    assert_eq!(join(&vec![vel.mask()], &vec![pos.mask()]), vec![32768, 262144]);
    // five masks: intersections of intersections
    assert_eq!(
        join(&vec![pos.mask(), vel.mask(), pos.mask(), vel.mask(), pos.mask()], &vec![]),
        vec![0]
    );
    let mut big: secs::storage::HashStorage<i32> = secs::storage::HashStorage::with_capacity(8);
    big.insert(0, 0);
    big.insert(262144, 0);
    assert_eq!(
        join(&vec![vel.mask(), big.mask(), vel.mask(), big.mask()], &vec![pos.mask()]),
        vec![262144]
    );
}
