use mutex_trait::{Mutex, TupleExt02};
use std::cell::RefCell;

#[test]
fn refcell_lock() {
    let a = RefCell::new(0);
    let b = RefCell::new(0);

    (&a).lock(|a| {
        *a += 1;
    });

    (&b).lock(|b| {
        *b += 1;
    });

    (&a, &b).lock(|a, b| {
        *a += 1;
        *b += 1;
    });

    assert_eq!(*a.borrow(), 2);
    assert_eq!(*b.borrow(), 2);
}

#[test]
fn cells_locked_one_at_a_time_end_at_one() {
    let a = RefCell::new(0);
    let b = RefCell::new(0);
    (&a).lock(|x| *x += 1);
    (&b).lock(|x| *x += 1);
    assert_eq!(*a.borrow(), 1);
    assert_eq!(*b.borrow(), 1);
}

#[test]
fn cells_locked_together_end_at_one() {
    let a = RefCell::new(0);
    let b = RefCell::new(0);
    (&a, &b).lock(|x, y| {
        *x += 1;
        *y += 1;
    });
    assert_eq!(*a.borrow(), 1);
    assert_eq!(*b.borrow(), 1);
}

#[test]
fn cell_is_borrowed_for_the_whole_critical_section() {
    let a = RefCell::new(0);
    let seen = (&a).lock(|x| {
        *x += 1;
        a.try_borrow_mut().is_err()
    });
    assert!(seen);
    assert!(a.try_borrow_mut().is_ok());
    assert_eq!(*a.borrow(), 1);
}

#[test]
fn cells_are_all_held_inside_the_composed_section() {
    let a = RefCell::new(1);
    let b = RefCell::new(2);
    let held = (&a, &b).lock(|x, y| {
        *x += 10;
        *y += 10;
        a.try_borrow().is_err() && b.try_borrow().is_err()
    });
    assert!(held);
    assert!(a.try_borrow_mut().is_ok() && b.try_borrow_mut().is_ok());
    assert_eq!((*a.borrow(), *b.borrow()), (11, 12));
}

#[test]
fn cell_lock_through_mutable_reference() {
    let a = RefCell::new(5);
    let mut handle = &a;
    let r = (&mut handle).lock(|x| {
        *x *= 3;
        *x
    });
    assert_eq!(r, 15);
    assert_eq!(*a.borrow(), 15);
}
