//! What the compositions promise, stated against what a single lock promises.
use crate::prelude::TupleExt01;
use crate::{accepts, fits, ran_on, Mutex};
use vstd::prelude::*;

verus! {

/// Composing a single lock is the same as calling that lock directly: locking the 1-tuple
/// `(before,)` accepts exactly the closures that locking `before` accepts, and an outcome
/// (the lock ending as `after`, the closure's result `r`) is possible for the one exactly
/// when it is possible for the other.
pub proof fn single_composition_is_the_lock<D, L: Mutex<D>, R, F: FnOnce(&mut D) -> R>(
    before: L,
    after: L,
    f: F,
    r: R,
)
    ensures
        accepts::<D, R, F>(f, TupleExt01::<D>::guarded(&(before,)).0) == accepts::<D, R, F>(
            f,
            before.guarded(),
        ),
        (exists|d: &mut D|
            #![trigger f.ensures((d,), r)]
            {
                &&& fits(TupleExt01::<D>::guarded(&(before,)).0, *d)
                &&& fits(TupleExt01::<D>::guarded(&(after,)).0, *final(d))
                &&& f.ensures((d,), r)
            }) == (exists|d: &mut D|
            #![trigger f.ensures((d,), r)]
            {
                &&& fits(before.guarded(), *d)
                &&& fits(after.guarded(), *final(d))
                &&& f.ensures((d,), r)
            }),
{
}

/// Locking through a mutable reference is the same as locking the lock it points to: the
/// reference shows what the lock shows, so the closures accepted and the outcomes possible
/// are the same for both.
pub proof fn reference_is_the_lock<D, L: Mutex<D>, R, F: FnOnce(&mut D) -> R>(
    before: &mut L,
    after: &mut L,
    f: F,
    r: R,
)
    ensures
        accepts::<D, R, F>(f, Mutex::<D>::guarded(&before)) == accepts::<D, R, F>(
            f,
            (*old(before)).guarded(),
        ),
        (exists|d: &mut D|
            #![trigger f.ensures((d,), r)]
            {
                &&& fits(Mutex::<D>::guarded(&before), *d)
                &&& fits(Mutex::<D>::guarded(&after), *final(d))
                &&& f.ensures((d,), r)
            }) == (exists|d: &mut D|
            #![trigger f.ensures((d,), r)]
            {
                &&& fits((*old(before)).guarded(), *d)
                &&& fits((*old(after)).guarded(), *final(d))
                &&& f.ensures((d,), r)
            }),
{
}

} // verus!

verus! {

/// Locking through a mutable reference gives what locking the lock itself gives. Take one
/// call of `f` on a lock that went from `before` to `after` and returned `r1`, and one call of
/// `f` through a reference that went from `href` to `href_after` and returned `r2`, both
/// starting from the same shown data. Where `f` leaves the same data and returns the same
/// value whenever it starts from the same data, and the handles show their data, the two
/// results are equal and the data the two calls leave is equal.
pub proof fn reference_lock_matches_direct_lock<D, L: Mutex<D>, R, F: FnOnce(&mut D) -> R>(
    f: F,
    before: L,
    after: L,
    r1: R,
    href: &mut L,
    href_after: &mut L,
    r2: R,
)
    requires
        forall|d1: &mut D, d2: &mut D, x1: R, x2: R|
            #![trigger f.ensures((d1,), x1), f.ensures((d2,), x2)]
            *d1 == *d2 && f.ensures((d1,), x1) && f.ensures((d2,), x2) ==> x1 == x2 && *final(d1)
                == *final(d2),
        before.guarded() is Some,
        after.guarded() is Some,
        Mutex::<D>::guarded(&href_after) is Some,
        Mutex::<D>::guarded(&href) == before.guarded(),
        exists|d: &mut D|
            #![trigger f.ensures((d,), r1)]
            ran_on::<D, R, F>(f, d, *final(d), before.guarded(), after.guarded(), r1),
        exists|d: &mut D|
            #![trigger f.ensures((d,), r2)]
            ran_on::<D, R, F>(
                f,
                d,
                *final(d),
                Mutex::<D>::guarded(&href),
                Mutex::<D>::guarded(&href_after),
                r2,
            ),
    ensures
        r1 == r2,
        Mutex::<D>::guarded(&href_after) == after.guarded(),
{
}

} // verus!

verus! {

/// Composing a single lock gives what locking it directly gives. Take one call of `f` on a
/// lock that went from `before` to `after` and returned `r1`, and one call of `f` on a tuple of
/// one lock that went from `t_before` to `t_after` and returned `r2`, both starting from the
/// same shown data. Where `f` leaves the same data and returns the same value whenever it
/// starts from the same data, and the handles show their data, the two results are equal and
/// the data the two calls leave is equal.
pub proof fn single_composition_matches_direct_lock<
    D,
    L: Mutex<D>,
    R,
    F: FnOnce(&mut D) -> R,
>(f: F, before: L, after: L, r1: R, t_before: (L,), t_after: (L,), r2: R)
    requires
        forall|d1: &mut D, d2: &mut D, x1: R, x2: R|
            #![trigger f.ensures((d1,), x1), f.ensures((d2,), x2)]
            *d1 == *d2 && f.ensures((d1,), x1) && f.ensures((d2,), x2) ==> x1 == x2 && *final(d1)
                == *final(d2),
        before.guarded() is Some,
        after.guarded() is Some,
        TupleExt01::<D>::guarded(&t_after).0 is Some,
        TupleExt01::<D>::guarded(&t_before).0 == before.guarded(),
        exists|d: &mut D|
            #![trigger f.ensures((d,), r1)]
            ran_on::<D, R, F>(f, d, *final(d), before.guarded(), after.guarded(), r1),
        exists|d: &mut D|
            #![trigger f.ensures((d,), r2)]
            {
                &&& fits(TupleExt01::<D>::guarded(&t_before).0, *d)
                &&& fits(TupleExt01::<D>::guarded(&t_after).0, *final(d))
                &&& f.ensures((d,), r2)
            },
    ensures
        r1 == r2,
        TupleExt01::<D>::guarded(&t_after).0 == after.guarded(),
{
}

} // verus!
