use arena_system::{Arena, ArenaError, BorrowError, Index};

fn filled(values: Vec<i32>) -> Arena<i32> {
    let mut arena = Arena::new();
    for value in values {
        arena.add(value);
    }
    arena
}

#[test]
fn end_to_end_scenario() {
    let mut arena: Arena<i32> = Arena::new();
    assert_eq!(arena.add(10), Index::new(0));
    assert_eq!(arena.add(20), Index::new(1));
    assert_eq!(arena.remove(Index::new(0)).unwrap(), 10);
    assert_eq!(arena.len(), 1);
    assert_eq!(arena.add(30), Index::new(0));
    assert_eq!(*arena.lookup(Index::new(0)).unwrap(), 30);
    assert_eq!(*arena.lookup(Index::new(1)).unwrap(), 20);
    assert!(matches!(arena.lookup(Index::invalid()), Err(ArenaError::InvalidIndexUsage)));
}

#[test]
fn a_new_arena_is_empty() {
    let arena: Arena<i32> = Arena::new();
    assert_eq!(arena.len(), 0);
    assert!(arena.is_empty());
    assert!(matches!(
        arena.lookup(Index::new(0)),
        Err(ArenaError::BorrowError(BorrowError::ElementOutOfBounds))
    ));
}

#[test]
fn add_appends_slots_in_order() {
    let mut arena: Arena<i32> = Arena::new();
    for position in 0..5 {
        assert_eq!(arena.add(position * 10), Index::new(position as i64));
        assert_eq!(arena.len(), position as usize + 1);
        assert!(!arena.is_empty());
    }
    for position in 0..5 {
        assert_eq!(*arena.lookup(Index::new(position as i64)).unwrap(), position * 10);
    }
}

#[test]
fn an_added_element_is_there_at_once() {
    let mut arena: Arena<String> = Arena::new();
    let index = arena.add("first".to_string());
    assert_eq!(*arena.lookup(index).unwrap(), "first");
    assert_eq!(*arena.lookup_mut(index).unwrap(), "first");
}

#[test]
fn remove_returns_the_element_and_vacates_the_slot() {
    let mut arena = filled(vec![10, 20, 30]);
    assert_eq!(arena.remove(Index::new(1)).unwrap(), 20);
    assert_eq!(arena.len(), 2);
    assert!(arena.lookup(Index::new(1)).is_err());
    assert_eq!(*arena.lookup(Index::new(0)).unwrap(), 10);
    assert_eq!(*arena.lookup(Index::new(2)).unwrap(), 30);
}

#[test]
fn slot_reuse() {
    let mut arena = filled(vec![10, 20, 30]);
    assert_eq!(arena.remove(Index::new(1)).unwrap(), 20);
    assert_eq!(arena.add(40), Index::new(1));
    assert_eq!(*arena.lookup(Index::new(1)).unwrap(), 40);
    assert_eq!(arena.len(), 3);
    assert_eq!(arena.add(50), Index::new(3));
    assert_eq!(arena.len(), 4);
}

#[test]
fn the_slot_freed_last_is_reused_first() {
    let mut arena = filled(vec![0, 1, 2, 3, 4]);
    assert_eq!(arena.remove(Index::new(1)).unwrap(), 1);
    assert_eq!(arena.remove(Index::new(3)).unwrap(), 3);
    assert_eq!(arena.remove(Index::new(0)).unwrap(), 0);
    assert_eq!(arena.len(), 2);
    assert_eq!(arena.add(100), Index::new(0));
    assert_eq!(arena.add(101), Index::new(3));
    assert_eq!(arena.add(102), Index::new(1));
    assert_eq!(arena.add(103), Index::new(5));
    assert_eq!(arena.len(), 6);
    assert_eq!(*arena.lookup(Index::new(0)).unwrap(), 100);
    assert_eq!(*arena.lookup(Index::new(1)).unwrap(), 102);
    assert_eq!(*arena.lookup(Index::new(2)).unwrap(), 2);
    assert_eq!(*arena.lookup(Index::new(3)).unwrap(), 101);
    assert_eq!(*arena.lookup(Index::new(4)).unwrap(), 4);
    assert_eq!(*arena.lookup(Index::new(5)).unwrap(), 103);
}

#[test]
fn count_invariant() {
    let mut arena: Arena<i32> = Arena::new();
    let mut adds = 0usize;
    let mut removes = 0usize;
    for round in 0..6i64 {
        arena.add(round as i32);
        adds += 1;
        arena.add(round as i32 + 100);
        adds += 1;
        assert_eq!(arena.len(), adds - removes);
        if arena.remove(Index::new(round)).is_ok() {
            removes += 1;
        }
        assert_eq!(arena.len(), adds - removes);
        if arena.remove(Index::new(round)).is_ok() {
            removes += 1;
        }
        assert_eq!(arena.len(), adds - removes);
        if arena.remove(Index::invalid()).is_ok() {
            removes += 1;
        }
        if arena.remove(Index::new(1000)).is_ok() {
            removes += 1;
        }
        assert_eq!(arena.len(), adds - removes);
    }
    assert_eq!(adds, 12);
    assert_eq!(removes, 6);
    assert_eq!(arena.len(), 6);
}

#[test]
fn removing_all_elements_empties_the_arena() {
    let mut arena = filled(vec![1, 2, 3]);
    for position in 0..3 {
        assert!(arena.remove(Index::new(position)).is_ok());
    }
    assert_eq!(arena.len(), 0);
    assert!(arena.is_empty());
    assert_eq!(arena.add(9), Index::new(2));
    assert_eq!(arena.len(), 1);
}

#[test]
fn invalid_index_rejection() {
    let mut arena = filled(vec![10, 20]);
    assert!(matches!(arena.lookup(Index::invalid()), Err(ArenaError::InvalidIndexUsage)));
    assert!(matches!(arena.lookup_mut(Index::invalid()), Err(ArenaError::InvalidIndexUsage)));
    assert!(matches!(arena.remove(Index::invalid()), Err(ArenaError::InvalidIndexUsage)));
    assert!(matches!(arena.lookup(Index::new(-5)), Err(ArenaError::InvalidIndexUsage)));
    assert!(matches!(arena.lookup_mut(Index::new(i64::MIN)), Err(ArenaError::InvalidIndexUsage)));
    assert!(matches!(arena.remove(Index::new(-2)), Err(ArenaError::InvalidIndexUsage)));
    assert_eq!(arena.len(), 2);
    assert_eq!(*arena.lookup(Index::new(0)).unwrap(), 10);
    assert_eq!(*arena.lookup(Index::new(1)).unwrap(), 20);
    assert_eq!(arena.add(30), Index::new(2));
}

#[test]
fn double_removal() {
    let mut arena = filled(vec![10, 20]);
    assert_eq!(arena.remove(Index::new(0)).unwrap(), 10);
    assert!(matches!(arena.remove(Index::new(0)), Err(ArenaError::RemovedElementAccess)));
    assert!(matches!(arena.remove(Index::new(0)), Err(ArenaError::RemovedElementAccess)));
    assert_eq!(arena.len(), 1);
    assert_eq!(arena.add(30), Index::new(0));
    assert_eq!(arena.add(40), Index::new(2));
    assert_eq!(arena.remove(Index::new(0)).unwrap(), 30);
}

#[test]
fn removal_beyond_the_last_slot_is_rejected() {
    let mut arena = filled(vec![10]);
    assert!(matches!(arena.remove(Index::new(1)), Err(ArenaError::RemovedElementAccess)));
    assert!(matches!(arena.remove(Index::new(i64::MAX)), Err(ArenaError::RemovedElementAccess)));
    assert_eq!(arena.len(), 1);
    let mut empty: Arena<i32> = Arena::new();
    assert!(matches!(empty.remove(Index::new(0)), Err(ArenaError::RemovedElementAccess)));
    assert_eq!(empty.add(5), Index::new(0));
}

#[test]
fn lookup_beyond_the_last_slot_is_out_of_bounds() {
    let arena = filled(vec![10, 20]);
    assert!(matches!(
        arena.lookup(Index::new(2)),
        Err(ArenaError::BorrowError(BorrowError::ElementOutOfBounds))
    ));
    assert!(matches!(
        arena.lookup_mut(Index::new(2)),
        Err(ArenaError::BorrowError(BorrowError::ElementOutOfBounds))
    ));
    assert!(matches!(
        arena.lookup(Index::new(i64::MAX)),
        Err(ArenaError::BorrowError(BorrowError::ElementOutOfBounds))
    ));
}

#[test]
fn lookup_of_a_vacant_slot_finds_no_value() {
    let mut arena = filled(vec![10, 20]);
    arena.remove(Index::new(0)).unwrap();
    match arena.lookup(Index::new(0)) {
        Err(ArenaError::BorrowError(BorrowError::Other(message))) => {
            assert_eq!(message, "No value was found")
        }
        _ => panic!("a vacant slot gave no `Other` error"),
    }
    match arena.lookup_mut(Index::new(0)) {
        Err(ArenaError::BorrowError(BorrowError::Other(message))) => {
            assert_eq!(message, "No value was found")
        }
        _ => panic!("a vacant slot gave no `Other` error"),
    }
    assert_eq!(*arena.lookup(Index::new(1)).unwrap(), 20);
}

#[test]
fn a_vacant_slot_is_not_left_borrowed_by_a_failed_lookup() {
    let mut arena = filled(vec![10]);
    arena.remove(Index::new(0)).unwrap();
    assert!(arena.lookup_mut(Index::new(0)).is_err());
    assert!(arena.lookup(Index::new(0)).is_err());
    assert_eq!(arena.add(11), Index::new(0));
    assert_eq!(*arena.lookup_mut(Index::new(0)).unwrap(), 11);
}

#[test]
fn aliasing_exclusivity() {
    let arena = filled(vec![10, 20]);
    {
        let shared = arena.lookup(Index::new(0)).unwrap();
        assert!(matches!(
            arena.lookup_mut(Index::new(0)),
            Err(ArenaError::BorrowError(BorrowError::ElementAlreadyBorrowed))
        ));
        let other = arena.lookup_mut(Index::new(1)).unwrap();
        assert_eq!(*shared, 10);
        assert_eq!(*other, 20);
    }
    assert_eq!(*arena.lookup_mut(Index::new(0)).unwrap(), 10);
}

#[test]
fn shared_guards_on_one_slot_coexist() {
    let arena = filled(vec![10]);
    let first = arena.lookup(Index::new(0)).unwrap();
    let second = arena.lookup(Index::new(0)).unwrap();
    assert_eq!(*first, 10);
    assert_eq!(*second, 10);
}

#[test]
fn an_exclusive_guard_shuts_out_every_other_guard() {
    let arena = filled(vec![10, 20]);
    let mut exclusive = arena.lookup_mut(Index::new(0)).unwrap();
    assert!(matches!(
        arena.lookup(Index::new(0)),
        Err(ArenaError::BorrowError(BorrowError::ElementAlreadyBorrowedMutably))
    ));
    assert!(matches!(
        arena.lookup_mut(Index::new(0)),
        Err(ArenaError::BorrowError(BorrowError::ElementAlreadyBorrowed))
    ));
    *exclusive = 11;
    assert_eq!(*arena.lookup(Index::new(1)).unwrap(), 20);
    drop(exclusive);
    assert_eq!(*arena.lookup(Index::new(0)).unwrap(), 11);
}

#[test]
fn guards_on_distinct_slots_do_not_conflict() {
    let arena = filled(vec![1, 2, 3]);
    let mut first = arena.lookup_mut(Index::new(0)).unwrap();
    let mut second = arena.lookup_mut(Index::new(1)).unwrap();
    let third = arena.lookup(Index::new(2)).unwrap();
    *first += *third;
    *second += *third;
    drop(first);
    drop(second);
    drop(third);
    assert_eq!(*arena.lookup(Index::new(0)).unwrap(), 4);
    assert_eq!(*arena.lookup(Index::new(1)).unwrap(), 5);
    assert_eq!(*arena.lookup(Index::new(2)).unwrap(), 3);
}

#[test]
fn a_change_through_an_exclusive_guard_stays() {
    let mut arena = filled(vec![10, 20]);
    {
        let mut guard = arena.lookup_mut(Index::new(1)).unwrap();
        *guard = 21;
    }
    assert_eq!(*arena.lookup(Index::new(1)).unwrap(), 21);
    assert_eq!(arena.remove(Index::new(1)).unwrap(), 21);
}

#[test]
fn a_leaked_guard_does_not_keep_an_element_from_removal() {
    let mut arena = filled(vec![10, 20, 30]);
    std::mem::forget(arena.lookup_mut(Index::new(1)).unwrap());
    assert!(matches!(
        arena.lookup(Index::new(1)),
        Err(ArenaError::BorrowError(BorrowError::ElementAlreadyBorrowedMutably))
    ));
    assert_eq!(arena.remove(Index::new(1)).unwrap(), 20);
    assert_eq!(arena.len(), 2);
    assert!(matches!(arena.remove(Index::new(1)), Err(ArenaError::RemovedElementAccess)));
    assert_eq!(*arena.lookup(Index::new(0)).unwrap(), 10);
    assert_eq!(*arena.lookup(Index::new(2)).unwrap(), 30);
    assert_eq!(arena.add(40), Index::new(1));
    assert_eq!(*arena.lookup_mut(Index::new(1)).unwrap(), 40);
    assert_eq!(arena.len(), 3);
}

#[test]
fn a_leaked_shared_guard_does_not_keep_an_element_from_removal() {
    let mut arena = filled(vec![10, 20]);
    std::mem::forget(arena.lookup(Index::new(0)).unwrap());
    assert!(arena.lookup_mut(Index::new(0)).is_err());
    assert_eq!(arena.remove(Index::new(0)).unwrap(), 10);
    assert_eq!(*arena.lookup(Index::new(1)).unwrap(), 20);
    assert_eq!(arena.add(11), Index::new(0));
    assert_eq!(*arena.lookup_mut(Index::new(0)).unwrap(), 11);
}

#[test]
fn try_add_stores_like_add() {
    let mut arena: Arena<i32> = Arena::new();
    assert_eq!(arena.try_add(10), Ok(Index::new(0)));
    assert_eq!(arena.try_add(20), Ok(Index::new(1)));
    arena.remove(Index::new(0)).unwrap();
    assert_eq!(arena.try_add(30), Ok(Index::new(0)));
    assert_eq!(arena.len(), 2);
    assert_eq!(*arena.lookup(Index::new(0)).unwrap(), 30);
}

#[test]
fn from_vec_keeps_the_order() {
    let arena = Arena::from_vec(vec!["a", "b", "c"]);
    assert_eq!(arena.len(), 3);
    assert_eq!(*arena.lookup(Index::new(0)).unwrap(), "a");
    assert_eq!(*arena.lookup(Index::new(1)).unwrap(), "b");
    assert_eq!(*arena.lookup(Index::new(2)).unwrap(), "c");
    let empty: Arena<i32> = Arena::from_vec(vec![]);
    assert!(empty.is_empty());
}

#[test]
fn an_arena_is_made_from_a_vector() {
    let mut arena: Arena<i32> = Arena::from(vec![5, 6]);
    assert_eq!(arena.len(), 2);
    assert_eq!(*arena.lookup(Index::new(0)).unwrap(), 5);
    assert_eq!(*arena.lookup(Index::new(1)).unwrap(), 6);
    assert_eq!(arena.add(7), Index::new(2));
}

#[test]
fn a_borrow_error_becomes_an_arena_error() {
    assert!(matches!(
        ArenaError::from(BorrowError::ElementAlreadyBorrowed),
        ArenaError::BorrowError(BorrowError::ElementAlreadyBorrowed)
    ));
    match ArenaError::from(BorrowError::Other("why".to_string())) {
        ArenaError::BorrowError(BorrowError::Other(message)) => assert_eq!(message, "why"),
        _ => panic!("the error was not wrapped"),
    }
}

#[test]
fn a_storage_outcome_becomes_an_arena_result() {
    assert!(matches!(ArenaError::from_storage(Ok::<i32, BorrowError>(7)), Ok(7)));
    assert!(matches!(
        ArenaError::from_storage(Err::<i32, BorrowError>(BorrowError::ElementOutOfBounds)),
        Err(ArenaError::BorrowError(BorrowError::ElementOutOfBounds))
    ));
    assert!(matches!(
        ArenaError::from_storage(Err::<i32, BorrowError>(
            BorrowError::ElementAlreadyBorrowedMutably
        )),
        Err(ArenaError::BorrowError(BorrowError::ElementAlreadyBorrowedMutably))
    ));
}
