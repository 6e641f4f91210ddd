//! A `RefCell` is a lock in single threaded applications.
use crate::Mutex;
use core::cell::{RefCell, RefMut};
use vstd::prelude::*;

verus! {

/// `core::cell::RefCell`, whose contents stay opaque here.
#[verifier::external_type_specification]
#[verifier::external_body]
#[verifier::reject_recursive_types(T)]
pub struct ExRefCell<T: ?Sized>(RefCell<T>);

/// `core::cell::RefMut`, the guard of a cell's exclusive borrow; dropping it ends the borrow.
#[verifier::external_type_specification]
#[verifier::external_body]
#[verifier::reject_recursive_types(T)]
pub struct ExRefMut<'b, T: ?Sized + 'b>(RefMut<'b, T>);

/// Relies on `RefCell::borrow_mut`: takes the cell's exclusive borrow, which lasts as long
/// as the guard. It panics where the cell is already borrowed, so a second lock taken
/// inside a critical section of the same cell stops the program.
#[verifier::external_body]
fn take_borrow<'b, T>(cell: &'b RefCell<T>) -> RefMut<'b, T> {
    cell.borrow_mut()
}

/// Relies on `DerefMut` for `RefMut`: the guard's access to the value in the cell.
#[verifier::external_body]
fn guarded_value<'g, 'b, T>(guard: &'g mut RefMut<'b, T>) -> &'g mut T {
    &mut **guard
}

impl<'a, T> Mutex<T> for &'a RefCell<T> {
    /// What a cell holds is not visible to contracts.
    open spec fn guarded(&self) -> Option<T> {
        None
    }

    fn lock<R, F: FnOnce(&mut T) -> R>(&mut self, f: F) -> (r: R) {
        let mut guard = take_borrow(*self);
        let r = f(guarded_value(&mut guard));
        r
    }
}

} // verus!
