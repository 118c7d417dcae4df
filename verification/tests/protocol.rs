use owned_ref_cell::{BorrowCounter, OwnedRefCell};

#[test]
fn new_cell_is_free() {
    let cell = OwnedRefCell::new(5);
    assert_eq!(cell.shared_count(), 0);
    assert!(!cell.is_exclusive());
}

#[test]
fn shared_requests_are_all_granted_and_counted() {
    let mut cell = OwnedRefCell::new(5);
    let mut guards = Vec::new();
    for live in 1..=100usize {
        let guard = cell.try_borrow();
        assert!(guard.is_some());
        guards.push(guard.unwrap());
        assert_eq!(cell.shared_count(), live);
        assert!(!cell.is_exclusive());
    }
    for guard in &guards {
        assert_eq!(*guard.as_ref(&cell), 5);
    }
}

#[test]
fn exclusive_request_is_granted_only_when_free() {
    let mut cell = OwnedRefCell::new(5);
    let shared = cell.borrow();
    assert!(cell.try_borrow_mut().is_none());
    shared.release(&mut cell);

    let exclusive = cell.try_borrow_mut();
    assert!(exclusive.is_some());
    assert!(cell.is_exclusive());
    assert_eq!(cell.shared_count(), 0);
    assert!(cell.try_borrow_mut().is_none());
}

#[test]
fn exclusive_borrow_refuses_every_request_until_release() {
    let mut cell = OwnedRefCell::new(5);
    let exclusive = cell.borrow_mut();
    for _ in 0..10 {
        assert!(cell.try_borrow().is_none());
        assert!(cell.try_borrow_mut().is_none());
        assert!(cell.is_exclusive());
        assert_eq!(cell.shared_count(), 0);
    }
    exclusive.release(&mut cell);
    assert!(!cell.is_exclusive());
    assert!(cell.try_borrow().is_some());
}

#[test]
fn refused_requests_leave_the_cell_as_it_was() {
    let mut cell = OwnedRefCell::new(5);
    let first = cell.borrow();
    let second = cell.borrow();
    assert!(cell.try_borrow_mut().is_none());
    assert_eq!(cell.shared_count(), 2);
    assert!(!cell.is_exclusive());
    assert_eq!(*first.as_ref(&cell), 5);
    assert_eq!(*second.as_ref(&cell), 5);
}

#[test]
fn release_of_the_exclusive_guard_frees_the_cell() {
    let mut cell = OwnedRefCell::new(5);
    let exclusive = cell.borrow_mut();
    assert!(cell.is_exclusive());
    exclusive.release(&mut cell);
    assert!(!cell.is_exclusive());
    assert_eq!(cell.shared_count(), 0);
    assert!(cell.try_borrow_mut().is_some());
}

#[test]
fn release_of_shared_guards_counts_down_to_free() {
    let mut cell = OwnedRefCell::new(5);
    let first = cell.borrow();
    let second = cell.borrow();
    let third = cell.borrow();
    assert_eq!(cell.shared_count(), 3);

    second.release(&mut cell);
    assert_eq!(cell.shared_count(), 2);
    assert!(cell.try_borrow_mut().is_none());

    first.release(&mut cell);
    assert_eq!(cell.shared_count(), 1);
    assert!(cell.try_borrow_mut().is_none());

    third.release(&mut cell);
    assert_eq!(cell.shared_count(), 0);
    assert!(!cell.is_exclusive());
    assert!(cell.try_borrow_mut().is_some());
}

#[test]
fn shared_reads_repeat_and_leave_the_state() {
    let mut cell = OwnedRefCell::new(5);
    let guard = cell.borrow();
    let other = cell.borrow();
    for _ in 0..5 {
        assert_eq!(*guard.as_ref(&cell), 5);
        assert_eq!(*other.as_ref(&cell), 5);
        assert_eq!(cell.shared_count(), 2);
    }
    other.release(&mut cell);
    assert_eq!(*guard.as_ref(&cell), 5);
    assert_eq!(cell.shared_count(), 1);
}

#[test]
fn exclusive_reads_see_the_latest_write() {
    let mut cell = OwnedRefCell::new(5);
    let mut guard = cell.borrow_mut();
    assert_eq!(*guard.as_ref(&cell), 5);
    *guard.as_mut(&mut cell) = 7;
    assert_eq!(*guard.as_ref(&cell), 7);
    assert_eq!(*guard.as_ref(&cell), 7);
    *guard.as_mut(&mut cell) += 2;
    assert_eq!(*guard.as_ref(&cell), 9);
    assert_eq!(*guard.as_mut(&mut cell), 9);
    assert!(cell.is_exclusive());
    assert_eq!(cell.shared_count(), 0);
}

#[test]
fn written_value_is_read_after_release() {
    let mut cell = OwnedRefCell::new(String::from("before"));
    let mut writer = cell.borrow_mut();
    writer.as_mut(&mut cell).push_str(" and after");
    writer.release(&mut cell);

    let reader = cell.try_borrow();
    assert!(reader.is_some());
    let reader = reader.unwrap();
    assert_eq!(reader.as_ref(&cell).as_str(), "before and after");
    assert_eq!(cell.shared_count(), 1);
}

#[test]
fn two_shared_guards_live_together() {
    let mut cell = OwnedRefCell::new(5);
    let g1 = cell.try_borrow();
    assert!(g1.is_some());
    let g1 = g1.unwrap();
    assert_eq!(*g1.as_ref(&cell), 5);
    let g2 = cell.try_borrow();
    assert!(g2.is_some());
    let g2 = g2.unwrap();
    assert_eq!(*g2.as_ref(&cell), 5);
    assert_eq!(*g1.as_ref(&cell), 5);
}

#[test]
fn shared_request_is_refused_while_exclusively_held() {
    let mut cell = OwnedRefCell::new(5);
    let _g = cell.borrow_mut();
    assert!(cell.try_borrow().is_none());
}

#[test]
fn exclusive_request_is_refused_while_exclusively_held() {
    let mut cell = OwnedRefCell::new(5);
    let _g = cell.borrow_mut();
    assert!(cell.try_borrow_mut().is_none());
}

#[test]
fn exclusive_request_is_refused_while_shared() {
    let mut cell = OwnedRefCell::new(5);
    let _g = cell.borrow();
    assert!(cell.try_borrow_mut().is_none());
    assert_eq!(cell.shared_count(), 1);
}

#[test]
fn write_in_a_scope_then_read() {
    let mut cell = OwnedRefCell::new(5);
    {
        let mut g = cell.borrow_mut();
        *g.as_mut(&mut cell) = 10;
        g.release(&mut cell);
    }
    let g2 = cell.borrow();
    assert_eq!(*g2.as_ref(&cell), 10);
}

#[test]
fn counter_starts_free() {
    let counter = BorrowCounter::new();
    assert_eq!(counter.shared_count(), 0);
    assert!(!counter.is_exclusive());
}

#[test]
fn counter_counts_shared_borrows() {
    let mut counter = BorrowCounter::new();
    assert!(counter.try_borrow_shared());
    assert_eq!(counter.shared_count(), 1);
    assert!(counter.try_borrow_shared());
    assert!(counter.try_borrow_shared());
    assert_eq!(counter.shared_count(), 3);
    assert!(!counter.try_borrow_exclusive());
    assert_eq!(counter.shared_count(), 3);
    assert!(!counter.is_exclusive());

    counter.release_shared();
    assert_eq!(counter.shared_count(), 2);
    counter.release_shared();
    counter.release_shared();
    assert_eq!(counter.shared_count(), 0);
    assert!(counter.try_borrow_exclusive());
}

#[test]
fn counter_marks_the_exclusive_borrow() {
    let mut counter = BorrowCounter::new();
    assert!(counter.try_borrow_exclusive());
    assert!(counter.is_exclusive());
    assert_eq!(counter.shared_count(), 0);
    assert!(!counter.try_borrow_shared());
    assert!(!counter.try_borrow_exclusive());
    assert!(counter.is_exclusive());

    counter.release_exclusive();
    assert!(!counter.is_exclusive());
    assert_eq!(counter.shared_count(), 0);
    assert!(counter.try_borrow_shared());
}

#[test]
fn counter_exclusive_release_resets_whatever_it_held() {
    let mut counter = BorrowCounter::new();
    assert!(counter.try_borrow_shared());
    assert!(counter.try_borrow_shared());
    counter.release_exclusive();
    assert_eq!(counter.shared_count(), 0);
    assert!(!counter.is_exclusive());

    counter.release_exclusive();
    assert_eq!(counter.shared_count(), 0);
    assert!(!counter.is_exclusive());
}

#[test]
fn counter_copies_are_independent() {
    let mut counter = BorrowCounter::new();
    assert!(counter.try_borrow_shared());
    let mut copy = counter;
    assert!(copy.try_borrow_shared());
    assert_eq!(counter.shared_count(), 1);
    assert_eq!(copy.shared_count(), 2);
}
