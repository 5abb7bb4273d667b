use ecs::arena::{Array, Id};

#[test]
fn new_arena_is_empty() {
    let arena: Array<i32> = Array::new();
    assert_eq!(arena.len(), 0);
    assert!(arena.has_room());
    assert_eq!(arena.iter().count(), 0);
}

#[test]
fn each_add_returns_an_id_that_gets_its_value() {
    let values: Vec<i64> = vec![7, -3, 7, 0, 42, 1 << 40];
    let mut arena = Array::new();
    let mut ids: Vec<Id<i64>> = Vec::new();
    for (k, v) in values.iter().enumerate() {
        assert_eq!(arena.len(), k);
        ids.push(arena.add(*v));
    }
    assert_eq!(arena.len(), values.len());
    for (k, id) in ids.iter().enumerate() {
        assert_eq!(*arena.get(*id), values[k]);
    }
    assert!(ids[0] != ids[2]);
    assert!(ids[1] == ids[1].clone());
}

#[test]
fn add_get_and_iterate_in_insertion_order() {
    let mut arena = Array::new();
    let _id_for_10 = arena.add(10);
    let id_for_20 = arena.add(20);
    let _id_for_30 = arena.add(30);
    assert_eq!(*arena.get(id_for_20), 20);
    let seen: Vec<i32> = arena.iter().cloned().collect();
    assert_eq!(seen, vec![10, 20, 30]);
    let again: Vec<i32> = arena.iter().cloned().collect();
    assert_eq!(again, vec![10, 20, 30]);
}

#[test]
fn try_add_stores_while_there_is_room() {
    let mut arena = Array::new();
    let first = arena.try_add("a".to_string());
    let second = arena.try_add("b".to_string());
    let (first, second) = match (first, second) {
        (Ok(a), Ok(b)) => (a, b),
        _ => panic!("an arena with room refused a value"),
    };
    assert_eq!(arena.get(first), "a");
    assert_eq!(arena.get(second), "b");
    assert_eq!(arena.len(), 2);
}

#[test]
fn find_id_returns_the_first_match() {
    let mut arena = Array::new();
    let _a = arena.add(5);
    let b = arena.add(8);
    let _c = arena.add(8);
    assert!(arena.find_id(|v: &i32| *v == 8) == Some(b));
    assert!(arena.find_id(|v: &i32| *v > 100).is_none());
    let empty: Array<i32> = Array::new();
    assert!(empty.find_id(|_: &i32| true).is_none());
}

#[test]
fn get_mut_changes_in_place_and_keeps_the_id() {
    let mut arena = Array::new();
    let a = arena.add(1u8);
    let b = arena.add(2u8);
    *arena.get_mut(a) = 9;
    assert_eq!(*arena.get(a), 9);
    assert_eq!(*arena.get(b), 2);
    assert_eq!(arena.len(), 2);
    let c = arena.add(3u8);
    assert!(c != a && c != b);
    assert_eq!(*arena.get(a), 9);
}

#[test]
fn mut_iter_changes_every_value_in_order() {
    let mut arena = Array::new();
    let ids: Vec<Id<u32>> = vec![arena.add(1), arena.add(2), arena.add(3)];
    for v in arena.mut_iter() {
        *v *= 10;
    }
    assert_eq!(*arena.get(ids[0]), 10);
    assert_eq!(*arena.get(ids[1]), 20);
    assert_eq!(*arena.get(ids[2]), 30);
    assert_eq!(arena.len(), 3);
}

#[test]
fn ids_are_ordered_by_index() {
    let mut arena = Array::new();
    let a = arena.add('x');
    let b = arena.add('y');
    assert!(a < b);
    assert!(b > a);
    assert!(a <= a.clone());
    assert_eq!(a.partial_cmp(&b), Some(std::cmp::Ordering::Less));
    assert_eq!(b.partial_cmp(&b), Some(std::cmp::Ordering::Equal));
}
