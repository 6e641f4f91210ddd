use crate::{run_on, Mutex};
use vstd::prelude::*;

verus! {

/// A lock around data that is already exclusively owned: ownership itself is the proof
/// that nothing else can reach the data, so locking always succeeds at once.
pub struct Exclusive<T> {
    data: T,
}

impl<T> Exclusive<T> {
    /// The value this wrapper holds.
    pub closed spec fn value(&self) -> T {
        self.data
    }

    /// Wraps data that nothing else can reach.
    pub fn new(data: T) -> (e: Self)
        ensures
            e.value() == data,
    {
        Exclusive { data }
    }

    /// Gives the data back.
    pub fn into_inner(self) -> (data: T)
        ensures
            data == self.value(),
    {
        self.data
    }
}

impl<T> Mutex<T> for Exclusive<T> {
    open spec fn guarded(&self) -> Option<T> {
        Some(self.value())
    }

    fn lock<R, F: FnOnce(&mut T) -> R>(&mut self, f: F) -> (r: R) {
        let d = &mut self.data;
        let r = run_on(d, f);
        assert(self.data == *final(d));
        r
    }
}

} // verus!
