use secs::join::join;
use secs::storage::{HashStorage, OrderedStorage, VecStorage};

#[test]
fn vec_storage_presence_follows_payloads() {
    let mut s: VecStorage<&str> = VecStorage::with_capacity(8);
    assert!(!s.contains(3));
    s.insert(3, "three");
    s.insert(10, "ten");
    assert!(s.contains(3));
    assert_eq!(s.get(3), Some(&"three"));
    assert_eq!(s.get(4), None);
    *s.get_mut(10).unwrap() = "TEN";
    assert_eq!(s.get(10), Some(&"TEN"));
    assert_eq!(join(&vec![s.mask()], &vec![]), vec![3, 10]);
    assert_eq!(s.remove(3), Some("three"));
    assert_eq!(s.remove(3), None);
    assert!(!s.contains(3));
    assert_eq!(join(&vec![s.mask()], &vec![]), vec![10]);
}

#[test]
fn ordered_storage_presence_follows_payloads() {
    let mut s: OrderedStorage<u64> = OrderedStorage::new();
    s.insert(500, 5);
    s.insert(2, 1);
    s.insert(500, 6);
    assert!(s.contains(2));
    assert_eq!(s.get(500), Some(&6));
    assert_eq!(s.get(7), None);
    assert_eq!(join(&vec![s.mask()], &vec![]), vec![2, 500]);
    assert_eq!(s.remove(2), Some(1));
    assert!(!s.contains(2));
    assert_eq!(s.remove(2), None);
}

#[test]
fn hash_storage_presence_follows_payloads() {
    let mut s: HashStorage<i8> = HashStorage::new();
    s.insert(9, -1);
    s.insert(4, 2);
    assert_eq!(s.get(9), Some(&-1));
    assert_eq!(s.get(5), None);
    assert_eq!(join(&vec![s.mask()], &vec![]), vec![4, 9]);
    assert_eq!(s.remove(9), Some(-1));
    assert!(!s.contains(9));
    assert!(s.contains(4));
}

#[test]
fn join_across_backends_of_different_kinds() {
    let mut dense: VecStorage<i32> = VecStorage::new();
    let mut ordered: OrderedStorage<i32> = OrderedStorage::new();
    let mut hashed: HashStorage<i32> = HashStorage::new();
    for i in 0..10u32 {
        dense.insert(i, i as i32);
        if i % 2 == 0 {
            ordered.insert(i, 0);
        }
        if i % 3 == 0 {
            hashed.insert(i, 0);
        }
    }
    assert_eq!(join(&vec![dense.mask(), ordered.mask(), hashed.mask()], &vec![]), vec![0, 6]);
    assert_eq!(join(&vec![dense.mask(), ordered.mask()], &vec![hashed.mask()]), vec![2, 4, 8]);
}

#[test]
fn presized_map_backends_start_empty() {
    let mut o: OrderedStorage<u8> = OrderedStorage::with_capacity(100);
    let mut h: HashStorage<u8> = HashStorage::with_capacity(100);
    assert!(!o.contains(5));
    assert!(!h.contains(5));
    o.insert(5, 1);
    h.insert(5, 2);
    assert_eq!(o.get(5), Some(&1));
    assert_eq!(h.get(5), Some(&2));
}
