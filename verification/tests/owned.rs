use pallet_token::OwnedList;

#[test]
fn new_list_is_empty() {
    let list = OwnedList::new(3);
    assert_eq!(list.len(), 0);
    assert_eq!(list.bound(), 3);
    assert!(!list.is_full());
    assert_eq!(list.to_vec(), Vec::<u128>::new());
}

#[test]
fn try_push_stops_at_the_bound() {
    let mut list = OwnedList::new(2);
    assert_eq!(list.try_push(10), Ok(()));
    assert_eq!(list.try_push(20), Ok(()));
    assert!(list.is_full());
    assert_eq!(list.try_push(30), Err(30));
    assert_eq!(list.to_vec(), vec![10, 20]);
}

#[test]
fn zero_bound_takes_nothing() {
    let mut list = OwnedList::new(0);
    assert!(list.is_full());
    assert_eq!(list.try_push(1), Err(1));
    assert_eq!(list.len(), 0);
}

#[test]
fn position_finds_the_first_occurrence() {
    let mut list = OwnedList::new(5);
    for id in [4u128, 5, 6, 5] {
        assert_eq!(list.try_push(id), Ok(()));
    }
    assert_eq!(list.position(5), Some(1));
    assert_eq!(list.position(4), Some(0));
    assert_eq!(list.position(7), None);
}

#[test]
fn remove_by_value_keeps_the_order() {
    let mut list = OwnedList::new(5);
    for id in [1u128, 2, 3, 4] {
        assert_eq!(list.try_push(id), Ok(()));
    }
    assert_eq!(list.remove_by_value(2), Some(1));
    assert_eq!(list.to_vec(), vec![1, 3, 4]);
    assert_eq!(list.remove_by_value(2), None);
    assert_eq!(list.to_vec(), vec![1, 3, 4]);
}

#[test]
fn swap_remove_by_value_moves_the_last_into_the_gap() {
    let mut list = OwnedList::new(5);
    for id in [1u128, 2, 3, 4] {
        assert_eq!(list.try_push(id), Ok(()));
    }
    assert_eq!(list.swap_remove_by_value(2), Some(1));
    assert_eq!(list.to_vec(), vec![1, 4, 3]);
    assert_eq!(list.swap_remove_by_value(3), Some(2));
    assert_eq!(list.to_vec(), vec![1, 4]);
    assert_eq!(list.swap_remove_by_value(9), None);
    assert_eq!(list.to_vec(), vec![1, 4]);
}

#[test]
fn duplicate_is_independent() {
    let mut list = OwnedList::new(3);
    assert_eq!(list.try_push(8), Ok(()));
    let mut copy = list.duplicate();
    assert_eq!(copy.try_push(9), Ok(()));
    assert_eq!(list.to_vec(), vec![8]);
    assert_eq!(copy.to_vec(), vec![8, 9]);
    assert_eq!(copy.bound(), 3);
}
