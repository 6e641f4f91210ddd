//! A `Mutex` trait: exclusive access to protected data for the duration of a closure,
//! with implementations for references to locks, for `&RefCell<T>` and for data that is
//! already exclusively owned, and compositions that take several locks at once.
use vstd::prelude::*;

pub mod exclusive;
pub mod identities;
pub mod prelude;
pub mod refcell;

pub use exclusive::Exclusive;
pub use prelude::{
    TupleExt01, TupleExt02, TupleExt03, TupleExt04, TupleExt05, TupleExt06, TupleExt07,
    TupleExt08, TupleExt09, TupleExt10, TupleExt11, TupleExt12, TupleExt13, TupleExt14,
    TupleExt15, TupleExt16,
};

verus! {

/// Whether `v` may be what a lock holds, given what its handle shows of it: any value
/// where the handle shows nothing, else exactly the value shown.
pub open spec fn fits<D>(shown: Option<D>, v: D) -> bool {
    match shown {
        Some(s) => s == v,
        None => true,
    }
}

/// `f` may be called on every reference whose current value fits `shown`.
pub open spec fn accepts<D, R, F: FnOnce(&mut D) -> R>(f: F, shown: Option<D>) -> bool {
    forall|d: &mut D| fits(shown, *d) ==> #[trigger] f.requires((d,))
}

/// One call of `f` on `d` returned `r`, where `d` held a value that fits `before` when the
/// call began and `last` when it ended, and `last` fits `after`.
pub open spec fn ran_on<D, R, F: FnOnce(&mut D) -> R>(
    f: F,
    d: &mut D,
    last: D,
    before: Option<D>,
    after: Option<D>,
    r: R,
) -> bool {
    fits(before, *d) && fits(after, last) && f.ensures((d,), r)
}

// The data type is a parameter of the trait, not an associated type `Data`: inside an impl,
// Verus does not relate a quantifier over `&mut Self::Data` in the trait's contract to the
// impl's own data type, so no impl could prove the contract of `lock` (even
// `exists|d: Self::Data| d == r` fails there). With a parameter the same contracts verify.
/// Any object implementing this trait guarantees exclusive access to the data of type `D`
/// contained within the mutex for the duration of the lock.
pub trait Mutex<D> {
    /// The protected value, where this handle lets a contract see it; by default nothing
    /// is shown.
    open spec fn guarded(&self) -> Option<D> {
        None
    }

    /// Creates a critical section and grants temporary access to the protected data.
    /// The closure runs exactly once, on the protected data, and what it returns is
    /// returned unchanged.
    fn lock<R, F: FnOnce(&mut D) -> R>(&mut self, f: F) -> (r: R)
        requires
            accepts::<D, R, F>(f, old(self).guarded()),
        ensures
            exists|d: &mut D|
                #![trigger f.ensures((d,), r)]
                ran_on::<D, R, F>(f, d, *final(d), old(self).guarded(), final(self).guarded(), r),
    ;
}

/// Runs `f` on `d`: the critical section of a lock whose data is already exclusively held.
pub(crate) fn run_on<D, R, F: FnOnce(&mut D) -> R>(d: &mut D, f: F) -> (r: R)
    requires
        accepts::<D, R, F>(f, Some(*old(d))),
    ensures
        exists|e: &mut D|
            #![trigger f.ensures((e,), r)]
            ran_on::<D, R, F>(f, e, *final(e), Some(*old(d)), Some(*final(d)), r),
{
    f(d)
}

// `lock` works on any mutable reference to a lock, and behaves as the lock itself.
impl<'a, D, L: Mutex<D>> Mutex<D> for &'a mut L {
    open spec fn guarded(&self) -> Option<D> {
        (**self).guarded()
    }

    fn lock<R, F: FnOnce(&mut D) -> R>(&mut self, f: F) -> (r: R) {
        L::lock(*self, f)
    }
}

} // verus!
