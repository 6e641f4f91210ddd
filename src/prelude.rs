//! Makes locks work on N-tuples, locks the mutexes from left-to-right in the tuple. These are
//! used to reduce rightward drift in code and to help make intentions clearer.
//!
//! A tuple of N locks takes its first lock, and inside that critical section takes the other
//! N - 1 in the same way.
//!
//! As for [`Mutex`], the data types are parameters of each trait rather than associated types,
//! which Verus cannot relate to an impl's own types inside the quantified contracts.
use crate::{accepts, fits, Mutex};
use vstd::prelude::*;

verus! {

/// A single lock taken as a tuple of one, which behaves as the lock itself; see [`Mutex`].
pub trait TupleExt01<D1> {
    /// What the handles of the tuple show of their data, in order.
    spec fn guarded(&self) -> (Option<D1>,);

    /// Creates a critical section and grants temporary access to the protected data of
    /// every lock of the tuple: the locks are taken from left to right and released in
    /// the reverse order, and the closure runs once, inside all of them.
    fn lock<R, F: FnOnce(&mut D1) -> R>(&mut self, f: F) -> (r: R)
        requires
            accepts::<D1, R, F>(f, old(self).guarded().0),
        ensures
            exists|d1: &mut D1|
                #![trigger f.ensures((d1,), r)]
                {
                    &&& fits(old(self).guarded().0, *d1)
                    &&& fits(final(self).guarded().0, *final(d1))
                    &&& f.ensures((d1,), r)
                },
    ;
}

impl<D1, T1: Mutex<D1>> TupleExt01<D1> for (T1,) {
    open spec fn guarded(&self) -> (Option<D1>,) {
        (self.0.guarded(),)
    }

    fn lock<R, F: FnOnce(&mut D1) -> R>(&mut self, f: F) -> (r: R) {
        self.0.lock(f)
    }
}

/// `f` may be called on every 2 references whose current values fit `s1` to `s2`.
pub open spec fn accepts2<D1, D2, R, F: FnOnce(&mut D1, &mut D2) -> R>(
    f: F,
    s1: Option<D1>,
    s2: Option<D2>,
) -> bool {
    forall|d1: &mut D1, d2: &mut D2|
        (
            {
                &&& fits(s1, *d1)
                &&& fits(s2, *d2)
            }
        ) ==> #[trigger] f.requires((d1, d2))
}

/// 2 locks taken together, left to right; see [`Mutex`].
pub trait TupleExt02<D1, D2> {
    /// What the handles of the tuple show of their data, in order.
    spec fn guarded(&self) -> (Option<D1>, Option<D2>);

    /// Creates a critical section and grants temporary access to the protected data of
    /// every lock of the tuple: the locks are taken from left to right and released in
    /// the reverse order, and the closure runs once, inside all of them.
    fn lock<R, F: FnOnce(&mut D1, &mut D2) -> R>(&mut self, f: F) -> (r: R)
        requires
            accepts2::<D1, D2, R, F>(f, old(self).guarded().0, old(self).guarded().1),
        ensures
            exists|d1: &mut D1, d2: &mut D2|
                #![trigger f.ensures((d1, d2), r)]
                {
                    &&& fits(old(self).guarded().0, *d1)
                    &&& fits(final(self).guarded().0, *final(d1))
                    &&& fits(old(self).guarded().1, *d2)
                    &&& fits(final(self).guarded().1, *final(d2))
                    &&& f.ensures((d1, d2), r)
                },
    ;
}

/// Takes `l1` to `l2` from left to right, runs `f` on their data inside all of them, and
/// releases them in the reverse order.
fn lock_all2<D1, D2, T1, T2, R, F>(
    l1: &mut T1,
    l2: &mut T2,
    f: F,
) -> (r: R) where
    T1: Mutex<D1>,
    T2: Mutex<D2>,
    F: FnOnce(&mut D1, &mut D2) -> R,
    requires
        accepts2::<D1, D2, R, F>(f, (*old(l1)).guarded(), (*old(l2)).guarded()),
    ensures
        exists|d1: &mut D1, d2: &mut D2|
            #![trigger f.ensures((d1, d2), r)]
            {
                &&& fits((*old(l1)).guarded(), *d1) && fits((*final(l1)).guarded(), *final(d1))
                &&& fits((*old(l2)).guarded(), *d2) && fits((*final(l2)).guarded(), *final(d2))
                &&& f.ensures((d1, d2), r)
            },
{
    let ghost s1 = l1.guarded();
    let ghost s2 = l2.guarded();
    let rest = (l2,);
    l1.lock(
        move |d1: &mut D1| -> (r: R)
            requires
                fits(s1, *d1),
                rest.0.guarded() == s2,
                accepts2::<D1, D2, R, F>(f, s1, s2),
            ensures
                exists|e1: &mut D1, e2: &mut D2|
                    #![trigger f.ensures((e1, e2), r)]
                    {
                        &&& *e1 == *old(d1) && *final(e1) == *final(d1)
                        &&& fits(s2, *e2) && fits((*final(rest.0)).guarded(), *final(e2))
                        &&& f.ensures((e1, e2), r)
                    },
        {
            let (l2,) = rest;
            let held = (d1,);
            l2.lock(
                move |d2: &mut D2| -> (r: R)
                    requires
                        fits(s2, *d2),
                        fits(s1, *held.0),
                        accepts2::<D1, D2, R, F>(f, s1, s2),
                    ensures
                        exists|e1: &mut D1, e2: &mut D2|
                            #![trigger f.ensures((e1, e2), r)]
                            {
                                &&& *e1 == *held.0 && *final(e1) == *final(held.0)
                                &&& *e2 == *old(d2) && *final(e2) == *final(d2)
                                &&& f.ensures((e1, e2), r)
                            },
                {
                    let (h1,) = held;
                    f(h1, d2)
                }
            )
        }
    )
}

impl<D1, D2, T1, T2> TupleExt02<D1, D2> for (T1, T2)
where
    T1: Mutex<D1>,
    T2: Mutex<D2>,
{
    open spec fn guarded(&self) -> (Option<D1>, Option<D2>) {
        (self.0.guarded(), self.1.guarded())
    }

    fn lock<R, F: FnOnce(&mut D1, &mut D2) -> R>(&mut self, f: F) -> (r: R) {
        lock_all2(&mut self.0, &mut self.1, f)
    }
}

/// `f` may be called on every 3 references whose current values fit `s1` to `s3`.
pub open spec fn accepts3<D1, D2, D3, R, F: FnOnce(&mut D1, &mut D2, &mut D3) -> R>(
    f: F,
    s1: Option<D1>,
    s2: Option<D2>,
    s3: Option<D3>,
) -> bool {
    forall|d1: &mut D1, d2: &mut D2, d3: &mut D3|
        (
            {
                &&& fits(s1, *d1)
                &&& fits(s2, *d2)
                &&& fits(s3, *d3)
            }
        ) ==> #[trigger] f.requires((d1, d2, d3))
}

/// 3 locks taken together, left to right; see [`Mutex`].
pub trait TupleExt03<D1, D2, D3> {
    /// What the handles of the tuple show of their data, in order.
    spec fn guarded(&self) -> (Option<D1>, Option<D2>, Option<D3>);

    /// Creates a critical section and grants temporary access to the protected data of
    /// every lock of the tuple: the locks are taken from left to right and released in
    /// the reverse order, and the closure runs once, inside all of them.
    fn lock<R, F: FnOnce(&mut D1, &mut D2, &mut D3) -> R>(&mut self, f: F) -> (r: R)
        requires
            accepts3::<D1, D2, D3, R, F>(
                f, old(self).guarded().0, old(self).guarded().1, old(self).guarded().2,
            ),
        ensures
            exists|d1: &mut D1, d2: &mut D2, d3: &mut D3|
                #![trigger f.ensures((d1, d2, d3), r)]
                {
                    &&& fits(old(self).guarded().0, *d1)
                    &&& fits(final(self).guarded().0, *final(d1))
                    &&& fits(old(self).guarded().1, *d2)
                    &&& fits(final(self).guarded().1, *final(d2))
                    &&& fits(old(self).guarded().2, *d3)
                    &&& fits(final(self).guarded().2, *final(d3))
                    &&& f.ensures((d1, d2, d3), r)
                },
    ;
}

/// Takes `l1` to `l3` from left to right, runs `f` on their data inside all of them, and
/// releases them in the reverse order.
fn lock_all3<D1, D2, D3, T1, T2, T3, R, F>(
    l1: &mut T1,
    l2: &mut T2,
    l3: &mut T3,
    f: F,
) -> (r: R) where
    T1: Mutex<D1>,
    T2: Mutex<D2>,
    T3: Mutex<D3>,
    F: FnOnce(&mut D1, &mut D2, &mut D3) -> R,
    requires
        accepts3::<D1, D2, D3, R, F>(
            f, (*old(l1)).guarded(), (*old(l2)).guarded(), (*old(l3)).guarded(),
        ),
    ensures
        exists|d1: &mut D1, d2: &mut D2, d3: &mut D3|
            #![trigger f.ensures((d1, d2, d3), r)]
            {
                &&& fits((*old(l1)).guarded(), *d1) && fits((*final(l1)).guarded(), *final(d1))
                &&& fits((*old(l2)).guarded(), *d2) && fits((*final(l2)).guarded(), *final(d2))
                &&& fits((*old(l3)).guarded(), *d3) && fits((*final(l3)).guarded(), *final(d3))
                &&& f.ensures((d1, d2, d3), r)
            },
{
    let ghost s1 = l1.guarded();
    let ghost s2 = l2.guarded();
    let ghost s3 = l3.guarded();
    let rest = (l2, l3);
    l1.lock(
        move |d1: &mut D1| -> (r: R)
            requires
                fits(s1, *d1),
                rest.0.guarded() == s2,
                rest.1.guarded() == s3,
                accepts3::<D1, D2, D3, R, F>(f, s1, s2, s3),
            ensures
                exists|e1: &mut D1, e2: &mut D2, e3: &mut D3|
                    #![trigger f.ensures((e1, e2, e3), r)]
                    {
                        &&& *e1 == *old(d1) && *final(e1) == *final(d1)
                        &&& fits(s2, *e2) && fits((*final(rest.0)).guarded(), *final(e2))
                        &&& fits(s3, *e3) && fits((*final(rest.1)).guarded(), *final(e3))
                        &&& f.ensures((e1, e2, e3), r)
                    },
        {
            let (l2, l3) = rest;
            let held = (d1,);
            lock_all2(
                l2,
                l3,
                move |d2: &mut D2, d3: &mut D3| -> (r: R)
                    requires
                        fits(s2, *d2),
                        fits(s3, *d3),
                        fits(s1, *held.0),
                        accepts3::<D1, D2, D3, R, F>(f, s1, s2, s3),
                    ensures
                        exists|e1: &mut D1, e2: &mut D2, e3: &mut D3|
                            #![trigger f.ensures((e1, e2, e3), r)]
                            {
                                &&& *e1 == *held.0 && *final(e1) == *final(held.0)
                                &&& *e2 == *old(d2) && *final(e2) == *final(d2)
                                &&& *e3 == *old(d3) && *final(e3) == *final(d3)
                                &&& f.ensures((e1, e2, e3), r)
                            },
                {
                    let (h1,) = held;
                    f(h1, d2, d3)
                }
            )
        }
    )
}

impl<D1, D2, D3, T1, T2, T3> TupleExt03<D1, D2, D3> for (T1, T2, T3)
where
    T1: Mutex<D1>,
    T2: Mutex<D2>,
    T3: Mutex<D3>,
{
    open spec fn guarded(&self) -> (Option<D1>, Option<D2>, Option<D3>) {
        (self.0.guarded(), self.1.guarded(), self.2.guarded())
    }

    fn lock<R, F: FnOnce(&mut D1, &mut D2, &mut D3) -> R>(&mut self, f: F) -> (r: R) {
        lock_all3(&mut self.0, &mut self.1, &mut self.2, f)
    }
}

/// `f` may be called on every 4 references whose current values fit `s1` to `s4`.
pub open spec fn accepts4<D1, D2, D3, D4, R, F: FnOnce(&mut D1, &mut D2, &mut D3, &mut D4) -> R>(
    f: F,
    s1: Option<D1>,
    s2: Option<D2>,
    s3: Option<D3>,
    s4: Option<D4>,
) -> bool {
    forall|d1: &mut D1, d2: &mut D2, d3: &mut D3, d4: &mut D4|
        (
            {
                &&& fits(s1, *d1)
                &&& fits(s2, *d2)
                &&& fits(s3, *d3)
                &&& fits(s4, *d4)
            }
        ) ==> #[trigger] f.requires((d1, d2, d3, d4))
}

/// 4 locks taken together, left to right; see [`Mutex`].
pub trait TupleExt04<D1, D2, D3, D4> {
    /// What the handles of the tuple show of their data, in order.
    spec fn guarded(&self) -> (Option<D1>, Option<D2>, Option<D3>, Option<D4>);

    /// Creates a critical section and grants temporary access to the protected data of
    /// every lock of the tuple: the locks are taken from left to right and released in
    /// the reverse order, and the closure runs once, inside all of them.
    fn lock<R, F: FnOnce(&mut D1, &mut D2, &mut D3, &mut D4) -> R>(&mut self, f: F) -> (r: R)
        requires
            accepts4::<D1, D2, D3, D4, R, F>(
                f, old(self).guarded().0, old(self).guarded().1, old(self).guarded().2,
                old(self).guarded().3,
            ),
        ensures
            exists|d1: &mut D1, d2: &mut D2, d3: &mut D3, d4: &mut D4|
                #![trigger f.ensures((d1, d2, d3, d4), r)]
                {
                    &&& fits(old(self).guarded().0, *d1)
                    &&& fits(final(self).guarded().0, *final(d1))
                    &&& fits(old(self).guarded().1, *d2)
                    &&& fits(final(self).guarded().1, *final(d2))
                    &&& fits(old(self).guarded().2, *d3)
                    &&& fits(final(self).guarded().2, *final(d3))
                    &&& fits(old(self).guarded().3, *d4)
                    &&& fits(final(self).guarded().3, *final(d4))
                    &&& f.ensures((d1, d2, d3, d4), r)
                },
    ;
}

/// Takes `l1` to `l4` from left to right, runs `f` on their data inside all of them, and
/// releases them in the reverse order.
fn lock_all4<D1, D2, D3, D4, T1, T2, T3, T4, R, F>(
    l1: &mut T1,
    l2: &mut T2,
    l3: &mut T3,
    l4: &mut T4,
    f: F,
) -> (r: R) where
    T1: Mutex<D1>,
    T2: Mutex<D2>,
    T3: Mutex<D3>,
    T4: Mutex<D4>,
    F: FnOnce(&mut D1, &mut D2, &mut D3, &mut D4) -> R,
    requires
        accepts4::<D1, D2, D3, D4, R, F>(
            f, (*old(l1)).guarded(), (*old(l2)).guarded(), (*old(l3)).guarded(),
            (*old(l4)).guarded(),
        ),
    ensures
        exists|d1: &mut D1, d2: &mut D2, d3: &mut D3, d4: &mut D4|
            #![trigger f.ensures((d1, d2, d3, d4), r)]
            {
                &&& fits((*old(l1)).guarded(), *d1) && fits((*final(l1)).guarded(), *final(d1))
                &&& fits((*old(l2)).guarded(), *d2) && fits((*final(l2)).guarded(), *final(d2))
                &&& fits((*old(l3)).guarded(), *d3) && fits((*final(l3)).guarded(), *final(d3))
                &&& fits((*old(l4)).guarded(), *d4) && fits((*final(l4)).guarded(), *final(d4))
                &&& f.ensures((d1, d2, d3, d4), r)
            },
{
    let ghost s1 = l1.guarded();
    let ghost s2 = l2.guarded();
    let ghost s3 = l3.guarded();
    let ghost s4 = l4.guarded();
    let rest = (l2, l3, l4);
    l1.lock(
        move |d1: &mut D1| -> (r: R)
            requires
                fits(s1, *d1),
                rest.0.guarded() == s2,
                rest.1.guarded() == s3,
                rest.2.guarded() == s4,
                accepts4::<D1, D2, D3, D4, R, F>(f, s1, s2, s3, s4),
            ensures
                exists|e1: &mut D1, e2: &mut D2, e3: &mut D3, e4: &mut D4|
                    #![trigger f.ensures((e1, e2, e3, e4), r)]
                    {
                        &&& *e1 == *old(d1) && *final(e1) == *final(d1)
                        &&& fits(s2, *e2) && fits((*final(rest.0)).guarded(), *final(e2))
                        &&& fits(s3, *e3) && fits((*final(rest.1)).guarded(), *final(e3))
                        &&& fits(s4, *e4) && fits((*final(rest.2)).guarded(), *final(e4))
                        &&& f.ensures((e1, e2, e3, e4), r)
                    },
        {
            let (l2, l3, l4) = rest;
            let held = (d1,);
            lock_all3(
                l2,
                l3,
                l4,
                move |d2: &mut D2, d3: &mut D3, d4: &mut D4| -> (r: R)
                    requires
                        fits(s2, *d2),
                        fits(s3, *d3),
                        fits(s4, *d4),
                        fits(s1, *held.0),
                        accepts4::<D1, D2, D3, D4, R, F>(f, s1, s2, s3, s4),
                    ensures
                        exists|e1: &mut D1, e2: &mut D2, e3: &mut D3, e4: &mut D4|
                            #![trigger f.ensures((e1, e2, e3, e4), r)]
                            {
                                &&& *e1 == *held.0 && *final(e1) == *final(held.0)
                                &&& *e2 == *old(d2) && *final(e2) == *final(d2)
                                &&& *e3 == *old(d3) && *final(e3) == *final(d3)
                                &&& *e4 == *old(d4) && *final(e4) == *final(d4)
                                &&& f.ensures((e1, e2, e3, e4), r)
                            },
                {
                    let (h1,) = held;
                    f(h1, d2, d3, d4)
                }
            )
        }
    )
}

impl<D1, D2, D3, D4, T1, T2, T3, T4> TupleExt04<D1, D2, D3, D4> for (T1, T2, T3, T4)
where
    T1: Mutex<D1>,
    T2: Mutex<D2>,
    T3: Mutex<D3>,
    T4: Mutex<D4>,
{
    open spec fn guarded(&self) -> (Option<D1>, Option<D2>, Option<D3>, Option<D4>) {
        (self.0.guarded(), self.1.guarded(), self.2.guarded(), self.3.guarded())
    }

    fn lock<R, F: FnOnce(&mut D1, &mut D2, &mut D3, &mut D4) -> R>(&mut self, f: F) -> (r: R) {
        lock_all4(&mut self.0, &mut self.1, &mut self.2, &mut self.3, f)
    }
}

/// `f` may be called on every 5 references whose current values fit `s1` to `s5`.
pub open spec fn accepts5<D1, D2, D3, D4, D5, R, F>(
    f: F,
    s1: Option<D1>,
    s2: Option<D2>,
    s3: Option<D3>,
    s4: Option<D4>,
    s5: Option<D5>,
) -> bool where
    F: FnOnce(&mut D1, &mut D2, &mut D3, &mut D4, &mut D5) -> R,
{
    forall|d1: &mut D1, d2: &mut D2, d3: &mut D3, d4: &mut D4, d5: &mut D5|
        (
            {
                &&& fits(s1, *d1)
                &&& fits(s2, *d2)
                &&& fits(s3, *d3)
                &&& fits(s4, *d4)
                &&& fits(s5, *d5)
            }
        ) ==> #[trigger] f.requires((d1, d2, d3, d4, d5))
}

/// 5 locks taken together, left to right; see [`Mutex`].
pub trait TupleExt05<D1, D2, D3, D4, D5> {
    /// What the handles of the tuple show of their data, in order.
    spec fn guarded(&self) -> (Option<D1>, Option<D2>, Option<D3>, Option<D4>, Option<D5>);

    /// Creates a critical section and grants temporary access to the protected data of
    /// every lock of the tuple: the locks are taken from left to right and released in
    /// the reverse order, and the closure runs once, inside all of them.
    fn lock<R, F>(&mut self, f: F) -> (r: R) where
        F: FnOnce(&mut D1, &mut D2, &mut D3, &mut D4, &mut D5) -> R,
        requires
            accepts5::<D1, D2, D3, D4, D5, R, F>(
                f, old(self).guarded().0, old(self).guarded().1, old(self).guarded().2,
                old(self).guarded().3, old(self).guarded().4,
            ),
        ensures
            exists|d1: &mut D1, d2: &mut D2, d3: &mut D3, d4: &mut D4, d5: &mut D5|
                #![trigger f.ensures((d1, d2, d3, d4, d5), r)]
                {
                    &&& fits(old(self).guarded().0, *d1)
                    &&& fits(final(self).guarded().0, *final(d1))
                    &&& fits(old(self).guarded().1, *d2)
                    &&& fits(final(self).guarded().1, *final(d2))
                    &&& fits(old(self).guarded().2, *d3)
                    &&& fits(final(self).guarded().2, *final(d3))
                    &&& fits(old(self).guarded().3, *d4)
                    &&& fits(final(self).guarded().3, *final(d4))
                    &&& fits(old(self).guarded().4, *d5)
                    &&& fits(final(self).guarded().4, *final(d5))
                    &&& f.ensures((d1, d2, d3, d4, d5), r)
                },
    ;
}

/// Takes `l1` to `l5` from left to right, runs `f` on their data inside all of them, and
/// releases them in the reverse order.
fn lock_all5<D1, D2, D3, D4, D5, T1, T2, T3, T4, T5, R, F>(
    l1: &mut T1,
    l2: &mut T2,
    l3: &mut T3,
    l4: &mut T4,
    l5: &mut T5,
    f: F,
) -> (r: R) where
    T1: Mutex<D1>,
    T2: Mutex<D2>,
    T3: Mutex<D3>,
    T4: Mutex<D4>,
    T5: Mutex<D5>,
    F: FnOnce(&mut D1, &mut D2, &mut D3, &mut D4, &mut D5) -> R,
    requires
        accepts5::<D1, D2, D3, D4, D5, R, F>(
            f, (*old(l1)).guarded(), (*old(l2)).guarded(), (*old(l3)).guarded(),
            (*old(l4)).guarded(), (*old(l5)).guarded(),
        ),
    ensures
        exists|d1: &mut D1, d2: &mut D2, d3: &mut D3, d4: &mut D4, d5: &mut D5|
            #![trigger f.ensures((d1, d2, d3, d4, d5), r)]
            {
                &&& fits((*old(l1)).guarded(), *d1) && fits((*final(l1)).guarded(), *final(d1))
                &&& fits((*old(l2)).guarded(), *d2) && fits((*final(l2)).guarded(), *final(d2))
                &&& fits((*old(l3)).guarded(), *d3) && fits((*final(l3)).guarded(), *final(d3))
                &&& fits((*old(l4)).guarded(), *d4) && fits((*final(l4)).guarded(), *final(d4))
                &&& fits((*old(l5)).guarded(), *d5) && fits((*final(l5)).guarded(), *final(d5))
                &&& f.ensures((d1, d2, d3, d4, d5), r)
            },
{
    let ghost s1 = l1.guarded();
    let ghost s2 = l2.guarded();
    let ghost s3 = l3.guarded();
    let ghost s4 = l4.guarded();
    let ghost s5 = l5.guarded();
    let rest = (l2, l3, l4, l5);
    l1.lock(
        move |d1: &mut D1| -> (r: R)
            requires
                fits(s1, *d1),
                rest.0.guarded() == s2,
                rest.1.guarded() == s3,
                rest.2.guarded() == s4,
                rest.3.guarded() == s5,
                accepts5::<D1, D2, D3, D4, D5, R, F>(f, s1, s2, s3, s4, s5),
            ensures
                exists|e1: &mut D1, e2: &mut D2, e3: &mut D3, e4: &mut D4, e5: &mut D5|
                    #![trigger f.ensures((e1, e2, e3, e4, e5), r)]
                    {
                        &&& *e1 == *old(d1) && *final(e1) == *final(d1)
                        &&& fits(s2, *e2) && fits((*final(rest.0)).guarded(), *final(e2))
                        &&& fits(s3, *e3) && fits((*final(rest.1)).guarded(), *final(e3))
                        &&& fits(s4, *e4) && fits((*final(rest.2)).guarded(), *final(e4))
                        &&& fits(s5, *e5) && fits((*final(rest.3)).guarded(), *final(e5))
                        &&& f.ensures((e1, e2, e3, e4, e5), r)
                    },
        {
            let (l2, l3, l4, l5) = rest;
            let held = (d1,);
            lock_all4(
                l2,
                l3,
                l4,
                l5,
                move |d2: &mut D2, d3: &mut D3, d4: &mut D4, d5: &mut D5| -> (r: R)
                    requires
                        fits(s2, *d2),
                        fits(s3, *d3),
                        fits(s4, *d4),
                        fits(s5, *d5),
                        fits(s1, *held.0),
                        accepts5::<D1, D2, D3, D4, D5, R, F>(f, s1, s2, s3, s4, s5),
                    ensures
                        exists|e1: &mut D1, e2: &mut D2, e3: &mut D3, e4: &mut D4, e5: &mut D5|
                            #![trigger f.ensures((e1, e2, e3, e4, e5), r)]
                            {
                                &&& *e1 == *held.0 && *final(e1) == *final(held.0)
                                &&& *e2 == *old(d2) && *final(e2) == *final(d2)
                                &&& *e3 == *old(d3) && *final(e3) == *final(d3)
                                &&& *e4 == *old(d4) && *final(e4) == *final(d4)
                                &&& *e5 == *old(d5) && *final(e5) == *final(d5)
                                &&& f.ensures((e1, e2, e3, e4, e5), r)
                            },
                {
                    let (h1,) = held;
                    f(h1, d2, d3, d4, d5)
                }
            )
        }
    )
}

impl<D1, D2, D3, D4, D5, T1, T2, T3, T4, T5> TupleExt05<D1, D2, D3, D4, D5> for (T1, T2, T3, T4, T5)
where
    T1: Mutex<D1>,
    T2: Mutex<D2>,
    T3: Mutex<D3>,
    T4: Mutex<D4>,
    T5: Mutex<D5>,
{
    open spec fn guarded(&self) -> (Option<D1>, Option<D2>, Option<D3>, Option<D4>, Option<D5>) {
        (self.0.guarded(), self.1.guarded(), self.2.guarded(), self.3.guarded(), self.4.guarded())
    }

    fn lock<R, F>(&mut self, f: F) -> (r: R) where
        F: FnOnce(&mut D1, &mut D2, &mut D3, &mut D4, &mut D5) -> R,
    {
        lock_all5(&mut self.0, &mut self.1, &mut self.2, &mut self.3, &mut self.4, f)
    }
}

/// `f` may be called on every 6 references whose current values fit `s1` to `s6`.
pub open spec fn accepts6<D1, D2, D3, D4, D5, D6, R, F>(
    f: F,
    s1: Option<D1>,
    s2: Option<D2>,
    s3: Option<D3>,
    s4: Option<D4>,
    s5: Option<D5>,
    s6: Option<D6>,
) -> bool where
    F: FnOnce(&mut D1, &mut D2, &mut D3, &mut D4, &mut D5, &mut D6) -> R,
{
    forall|d1: &mut D1, d2: &mut D2, d3: &mut D3, d4: &mut D4, d5: &mut D5, d6: &mut D6|
        (
            {
                &&& fits(s1, *d1)
                &&& fits(s2, *d2)
                &&& fits(s3, *d3)
                &&& fits(s4, *d4)
                &&& fits(s5, *d5)
                &&& fits(s6, *d6)
            }
        ) ==> #[trigger] f.requires((d1, d2, d3, d4, d5, d6))
}

/// 6 locks taken together, left to right; see [`Mutex`].
pub trait TupleExt06<D1, D2, D3, D4, D5, D6> {
    /// What the handles of the tuple show of their data, in order.
    spec fn guarded(&self) -> (
        Option<D1>, Option<D2>, Option<D3>, Option<D4>, Option<D5>, Option<D6>,
    );

    /// Creates a critical section and grants temporary access to the protected data of
    /// every lock of the tuple: the locks are taken from left to right and released in
    /// the reverse order, and the closure runs once, inside all of them.
    fn lock<R, F>(&mut self, f: F) -> (r: R) where
        F: FnOnce(&mut D1, &mut D2, &mut D3, &mut D4, &mut D5, &mut D6) -> R,
        requires
            accepts6::<D1, D2, D3, D4, D5, D6, R, F>(
                f, old(self).guarded().0, old(self).guarded().1, old(self).guarded().2,
                old(self).guarded().3, old(self).guarded().4, old(self).guarded().5,
            ),
        ensures
            exists|d1: &mut D1, d2: &mut D2, d3: &mut D3, d4: &mut D4, d5: &mut D5, d6: &mut D6|
                #![trigger f.ensures((d1, d2, d3, d4, d5, d6), r)]
                {
                    &&& fits(old(self).guarded().0, *d1)
                    &&& fits(final(self).guarded().0, *final(d1))
                    &&& fits(old(self).guarded().1, *d2)
                    &&& fits(final(self).guarded().1, *final(d2))
                    &&& fits(old(self).guarded().2, *d3)
                    &&& fits(final(self).guarded().2, *final(d3))
                    &&& fits(old(self).guarded().3, *d4)
                    &&& fits(final(self).guarded().3, *final(d4))
                    &&& fits(old(self).guarded().4, *d5)
                    &&& fits(final(self).guarded().4, *final(d5))
                    &&& fits(old(self).guarded().5, *d6)
                    &&& fits(final(self).guarded().5, *final(d6))
                    &&& f.ensures((d1, d2, d3, d4, d5, d6), r)
                },
    ;
}

/// Takes `l1` to `l6` from left to right, runs `f` on their data inside all of them, and
/// releases them in the reverse order.
fn lock_all6<D1, D2, D3, D4, D5, D6, T1, T2, T3, T4, T5, T6, R, F>(
    l1: &mut T1,
    l2: &mut T2,
    l3: &mut T3,
    l4: &mut T4,
    l5: &mut T5,
    l6: &mut T6,
    f: F,
) -> (r: R) where
    T1: Mutex<D1>,
    T2: Mutex<D2>,
    T3: Mutex<D3>,
    T4: Mutex<D4>,
    T5: Mutex<D5>,
    T6: Mutex<D6>,
    F: FnOnce(&mut D1, &mut D2, &mut D3, &mut D4, &mut D5, &mut D6) -> R,
    requires
        accepts6::<D1, D2, D3, D4, D5, D6, R, F>(
            f, (*old(l1)).guarded(), (*old(l2)).guarded(), (*old(l3)).guarded(),
            (*old(l4)).guarded(), (*old(l5)).guarded(), (*old(l6)).guarded(),
        ),
    ensures
        exists|d1: &mut D1, d2: &mut D2, d3: &mut D3, d4: &mut D4, d5: &mut D5, d6: &mut D6|
            #![trigger f.ensures((d1, d2, d3, d4, d5, d6), r)]
            {
                &&& fits((*old(l1)).guarded(), *d1) && fits((*final(l1)).guarded(), *final(d1))
                &&& fits((*old(l2)).guarded(), *d2) && fits((*final(l2)).guarded(), *final(d2))
                &&& fits((*old(l3)).guarded(), *d3) && fits((*final(l3)).guarded(), *final(d3))
                &&& fits((*old(l4)).guarded(), *d4) && fits((*final(l4)).guarded(), *final(d4))
                &&& fits((*old(l5)).guarded(), *d5) && fits((*final(l5)).guarded(), *final(d5))
                &&& fits((*old(l6)).guarded(), *d6) && fits((*final(l6)).guarded(), *final(d6))
                &&& f.ensures((d1, d2, d3, d4, d5, d6), r)
            },
{
    let ghost s1 = l1.guarded();
    let ghost s2 = l2.guarded();
    let ghost s3 = l3.guarded();
    let ghost s4 = l4.guarded();
    let ghost s5 = l5.guarded();
    let ghost s6 = l6.guarded();
    let rest = (l2, l3, l4, l5, l6);
    l1.lock(
        move |d1: &mut D1| -> (r: R)
            requires
                fits(s1, *d1),
                rest.0.guarded() == s2,
                rest.1.guarded() == s3,
                rest.2.guarded() == s4,
                rest.3.guarded() == s5,
                rest.4.guarded() == s6,
                accepts6::<D1, D2, D3, D4, D5, D6, R, F>(f, s1, s2, s3, s4, s5, s6),
            ensures
                exists|e1: &mut D1, e2: &mut D2, e3: &mut D3, e4: &mut D4, e5: &mut D5, e6: &mut D6|
                    #![trigger f.ensures((e1, e2, e3, e4, e5, e6), r)]
                    {
                        &&& *e1 == *old(d1) && *final(e1) == *final(d1)
                        &&& fits(s2, *e2) && fits((*final(rest.0)).guarded(), *final(e2))
                        &&& fits(s3, *e3) && fits((*final(rest.1)).guarded(), *final(e3))
                        &&& fits(s4, *e4) && fits((*final(rest.2)).guarded(), *final(e4))
                        &&& fits(s5, *e5) && fits((*final(rest.3)).guarded(), *final(e5))
                        &&& fits(s6, *e6) && fits((*final(rest.4)).guarded(), *final(e6))
                        &&& f.ensures((e1, e2, e3, e4, e5, e6), r)
                    },
        {
            let (l2, l3, l4, l5, l6) = rest;
            let held = (d1,);
            lock_all5(
                l2,
                l3,
                l4,
                l5,
                l6,
                move |d2: &mut D2, d3: &mut D3, d4: &mut D4, d5: &mut D5, d6: &mut D6| -> (r: R)
                    requires
                        fits(s2, *d2),
                        fits(s3, *d3),
                        fits(s4, *d4),
                        fits(s5, *d5),
                        fits(s6, *d6),
                        fits(s1, *held.0),
                        accepts6::<D1, D2, D3, D4, D5, D6, R, F>(f, s1, s2, s3, s4, s5, s6),
                    ensures
                        exists|
                            e1: &mut D1, e2: &mut D2, e3: &mut D3, e4: &mut D4, e5: &mut D5,
                            e6: &mut D6,
                        |
                            #![trigger f.ensures((e1, e2, e3, e4, e5, e6), r)]
                            {
                                &&& *e1 == *held.0 && *final(e1) == *final(held.0)
                                &&& *e2 == *old(d2) && *final(e2) == *final(d2)
                                &&& *e3 == *old(d3) && *final(e3) == *final(d3)
                                &&& *e4 == *old(d4) && *final(e4) == *final(d4)
                                &&& *e5 == *old(d5) && *final(e5) == *final(d5)
                                &&& *e6 == *old(d6) && *final(e6) == *final(d6)
                                &&& f.ensures((e1, e2, e3, e4, e5, e6), r)
                            },
                {
                    let (h1,) = held;
                    f(h1, d2, d3, d4, d5, d6)
                }
            )
        }
    )
}

impl<D1, D2, D3, D4, D5, D6, T1, T2, T3, T4, T5, T6>
    TupleExt06<D1, D2, D3, D4, D5, D6> for (T1, T2, T3, T4, T5, T6)
where
    T1: Mutex<D1>,
    T2: Mutex<D2>,
    T3: Mutex<D3>,
    T4: Mutex<D4>,
    T5: Mutex<D5>,
    T6: Mutex<D6>,
{
    open spec fn guarded(&self) -> (
        Option<D1>, Option<D2>, Option<D3>, Option<D4>, Option<D5>, Option<D6>,
    ) {
        (
            self.0.guarded(), self.1.guarded(), self.2.guarded(), self.3.guarded(),
            self.4.guarded(), self.5.guarded(),
        )
    }

    fn lock<R, F>(&mut self, f: F) -> (r: R) where
        F: FnOnce(&mut D1, &mut D2, &mut D3, &mut D4, &mut D5, &mut D6) -> R,
    {
        lock_all6(&mut self.0, &mut self.1, &mut self.2, &mut self.3, &mut self.4, &mut self.5, f)
    }
}

/// `f` may be called on every 7 references whose current values fit `s1` to `s7`.
pub open spec fn accepts7<D1, D2, D3, D4, D5, D6, D7, R, F>(
    f: F,
    s1: Option<D1>,
    s2: Option<D2>,
    s3: Option<D3>,
    s4: Option<D4>,
    s5: Option<D5>,
    s6: Option<D6>,
    s7: Option<D7>,
) -> bool where
    F: FnOnce(&mut D1, &mut D2, &mut D3, &mut D4, &mut D5, &mut D6, &mut D7) -> R,
{
    forall|
        d1: &mut D1, d2: &mut D2, d3: &mut D3, d4: &mut D4, d5: &mut D5, d6: &mut D6, d7: &mut D7,
    |
        (
            {
                &&& fits(s1, *d1)
                &&& fits(s2, *d2)
                &&& fits(s3, *d3)
                &&& fits(s4, *d4)
                &&& fits(s5, *d5)
                &&& fits(s6, *d6)
                &&& fits(s7, *d7)
            }
        ) ==> #[trigger] f.requires((d1, d2, d3, d4, d5, d6, d7))
}

/// 7 locks taken together, left to right; see [`Mutex`].
pub trait TupleExt07<D1, D2, D3, D4, D5, D6, D7> {
    /// What the handles of the tuple show of their data, in order.
    spec fn guarded(&self) -> (
        Option<D1>, Option<D2>, Option<D3>, Option<D4>, Option<D5>, Option<D6>, Option<D7>,
    );

    /// Creates a critical section and grants temporary access to the protected data of
    /// every lock of the tuple: the locks are taken from left to right and released in
    /// the reverse order, and the closure runs once, inside all of them.
    fn lock<R, F>(&mut self, f: F) -> (r: R) where
        F: FnOnce(&mut D1, &mut D2, &mut D3, &mut D4, &mut D5, &mut D6, &mut D7) -> R,
        requires
            accepts7::<D1, D2, D3, D4, D5, D6, D7, R, F>(
                f, old(self).guarded().0, old(self).guarded().1, old(self).guarded().2,
                old(self).guarded().3, old(self).guarded().4, old(self).guarded().5,
                old(self).guarded().6,
            ),
        ensures
            exists|
                d1: &mut D1, d2: &mut D2, d3: &mut D3, d4: &mut D4, d5: &mut D5, d6: &mut D6,
                d7: &mut D7,
            |
                #![trigger f.ensures((d1, d2, d3, d4, d5, d6, d7), r)]
                {
                    &&& fits(old(self).guarded().0, *d1)
                    &&& fits(final(self).guarded().0, *final(d1))
                    &&& fits(old(self).guarded().1, *d2)
                    &&& fits(final(self).guarded().1, *final(d2))
                    &&& fits(old(self).guarded().2, *d3)
                    &&& fits(final(self).guarded().2, *final(d3))
                    &&& fits(old(self).guarded().3, *d4)
                    &&& fits(final(self).guarded().3, *final(d4))
                    &&& fits(old(self).guarded().4, *d5)
                    &&& fits(final(self).guarded().4, *final(d5))
                    &&& fits(old(self).guarded().5, *d6)
                    &&& fits(final(self).guarded().5, *final(d6))
                    &&& fits(old(self).guarded().6, *d7)
                    &&& fits(final(self).guarded().6, *final(d7))
                    &&& f.ensures((d1, d2, d3, d4, d5, d6, d7), r)
                },
    ;
}

/// Takes `l1` to `l7` from left to right, runs `f` on their data inside all of them, and
/// releases them in the reverse order.
fn lock_all7<D1, D2, D3, D4, D5, D6, D7, T1, T2, T3, T4, T5, T6, T7, R, F>(
    l1: &mut T1,
    l2: &mut T2,
    l3: &mut T3,
    l4: &mut T4,
    l5: &mut T5,
    l6: &mut T6,
    l7: &mut T7,
    f: F,
) -> (r: R) where
    T1: Mutex<D1>,
    T2: Mutex<D2>,
    T3: Mutex<D3>,
    T4: Mutex<D4>,
    T5: Mutex<D5>,
    T6: Mutex<D6>,
    T7: Mutex<D7>,
    F: FnOnce(&mut D1, &mut D2, &mut D3, &mut D4, &mut D5, &mut D6, &mut D7) -> R,
    requires
        accepts7::<D1, D2, D3, D4, D5, D6, D7, R, F>(
            f, (*old(l1)).guarded(), (*old(l2)).guarded(), (*old(l3)).guarded(),
            (*old(l4)).guarded(), (*old(l5)).guarded(), (*old(l6)).guarded(), (*old(l7)).guarded(),
        ),
    ensures
        exists|
            d1: &mut D1, d2: &mut D2, d3: &mut D3, d4: &mut D4, d5: &mut D5, d6: &mut D6,
            d7: &mut D7,
        |
            #![trigger f.ensures((d1, d2, d3, d4, d5, d6, d7), r)]
            {
                &&& fits((*old(l1)).guarded(), *d1) && fits((*final(l1)).guarded(), *final(d1))
                &&& fits((*old(l2)).guarded(), *d2) && fits((*final(l2)).guarded(), *final(d2))
                &&& fits((*old(l3)).guarded(), *d3) && fits((*final(l3)).guarded(), *final(d3))
                &&& fits((*old(l4)).guarded(), *d4) && fits((*final(l4)).guarded(), *final(d4))
                &&& fits((*old(l5)).guarded(), *d5) && fits((*final(l5)).guarded(), *final(d5))
                &&& fits((*old(l6)).guarded(), *d6) && fits((*final(l6)).guarded(), *final(d6))
                &&& fits((*old(l7)).guarded(), *d7) && fits((*final(l7)).guarded(), *final(d7))
                &&& f.ensures((d1, d2, d3, d4, d5, d6, d7), r)
            },
{
    let ghost s1 = l1.guarded();
    let ghost s2 = l2.guarded();
    let ghost s3 = l3.guarded();
    let ghost s4 = l4.guarded();
    let ghost s5 = l5.guarded();
    let ghost s6 = l6.guarded();
    let ghost s7 = l7.guarded();
    let rest = (l2, l3, l4, l5, l6, l7);
    l1.lock(
        move |d1: &mut D1| -> (r: R)
            requires
                fits(s1, *d1),
                rest.0.guarded() == s2,
                rest.1.guarded() == s3,
                rest.2.guarded() == s4,
                rest.3.guarded() == s5,
                rest.4.guarded() == s6,
                rest.5.guarded() == s7,
                accepts7::<D1, D2, D3, D4, D5, D6, D7, R, F>(f, s1, s2, s3, s4, s5, s6, s7),
            ensures
                exists|
                    e1: &mut D1, e2: &mut D2, e3: &mut D3, e4: &mut D4, e5: &mut D5, e6: &mut D6,
                    e7: &mut D7,
                |
                    #![trigger f.ensures((e1, e2, e3, e4, e5, e6, e7), r)]
                    {
                        &&& *e1 == *old(d1) && *final(e1) == *final(d1)
                        &&& fits(s2, *e2) && fits((*final(rest.0)).guarded(), *final(e2))
                        &&& fits(s3, *e3) && fits((*final(rest.1)).guarded(), *final(e3))
                        &&& fits(s4, *e4) && fits((*final(rest.2)).guarded(), *final(e4))
                        &&& fits(s5, *e5) && fits((*final(rest.3)).guarded(), *final(e5))
                        &&& fits(s6, *e6) && fits((*final(rest.4)).guarded(), *final(e6))
                        &&& fits(s7, *e7) && fits((*final(rest.5)).guarded(), *final(e7))
                        &&& f.ensures((e1, e2, e3, e4, e5, e6, e7), r)
                    },
        {
            let (l2, l3, l4, l5, l6, l7) = rest;
            let held = (d1,);
            lock_all6(
                l2,
                l3,
                l4,
                l5,
                l6,
                l7,
                move |
                    d2: &mut D2, d3: &mut D3, d4: &mut D4, d5: &mut D5, d6: &mut D6, d7: &mut D7,
                | -> (r: R)
                    requires
                        fits(s2, *d2),
                        fits(s3, *d3),
                        fits(s4, *d4),
                        fits(s5, *d5),
                        fits(s6, *d6),
                        fits(s7, *d7),
                        fits(s1, *held.0),
                        accepts7::<D1, D2, D3, D4, D5, D6, D7, R, F>(f, s1, s2, s3, s4, s5, s6, s7),
                    ensures
                        exists|
                            e1: &mut D1, e2: &mut D2, e3: &mut D3, e4: &mut D4, e5: &mut D5,
                            e6: &mut D6, e7: &mut D7,
                        |
                            #![trigger f.ensures((e1, e2, e3, e4, e5, e6, e7), r)]
                            {
                                &&& *e1 == *held.0 && *final(e1) == *final(held.0)
                                &&& *e2 == *old(d2) && *final(e2) == *final(d2)
                                &&& *e3 == *old(d3) && *final(e3) == *final(d3)
                                &&& *e4 == *old(d4) && *final(e4) == *final(d4)
                                &&& *e5 == *old(d5) && *final(e5) == *final(d5)
                                &&& *e6 == *old(d6) && *final(e6) == *final(d6)
                                &&& *e7 == *old(d7) && *final(e7) == *final(d7)
                                &&& f.ensures((e1, e2, e3, e4, e5, e6, e7), r)
                            },
                {
                    let (h1,) = held;
                    f(h1, d2, d3, d4, d5, d6, d7)
                }
            )
        }
    )
}

impl<D1, D2, D3, D4, D5, D6, D7, T1, T2, T3, T4, T5, T6, T7>
    TupleExt07<D1, D2, D3, D4, D5, D6, D7> for (T1, T2, T3, T4, T5, T6, T7)
where
    T1: Mutex<D1>,
    T2: Mutex<D2>,
    T3: Mutex<D3>,
    T4: Mutex<D4>,
    T5: Mutex<D5>,
    T6: Mutex<D6>,
    T7: Mutex<D7>,
{
    open spec fn guarded(&self) -> (
        Option<D1>, Option<D2>, Option<D3>, Option<D4>, Option<D5>, Option<D6>, Option<D7>,
    ) {
        (
            self.0.guarded(), self.1.guarded(), self.2.guarded(), self.3.guarded(),
            self.4.guarded(), self.5.guarded(), self.6.guarded(),
        )
    }

    fn lock<R, F>(&mut self, f: F) -> (r: R) where
        F: FnOnce(&mut D1, &mut D2, &mut D3, &mut D4, &mut D5, &mut D6, &mut D7) -> R,
    {
        lock_all7(
            &mut self.0, &mut self.1, &mut self.2, &mut self.3, &mut self.4, &mut self.5,
            &mut self.6, f,
        )
    }
}

/// `f` may be called on every 8 references whose current values fit `s1` to `s8`.
pub open spec fn accepts8<D1, D2, D3, D4, D5, D6, D7, D8, R, F>(
    f: F,
    s1: Option<D1>,
    s2: Option<D2>,
    s3: Option<D3>,
    s4: Option<D4>,
    s5: Option<D5>,
    s6: Option<D6>,
    s7: Option<D7>,
    s8: Option<D8>,
) -> bool where
    F: FnOnce(&mut D1, &mut D2, &mut D3, &mut D4, &mut D5, &mut D6, &mut D7, &mut D8) -> R,
{
    forall|
        d1: &mut D1, d2: &mut D2, d3: &mut D3, d4: &mut D4, d5: &mut D5, d6: &mut D6, d7: &mut D7,
        d8: &mut D8,
    |
        (
            {
                &&& fits(s1, *d1)
                &&& fits(s2, *d2)
                &&& fits(s3, *d3)
                &&& fits(s4, *d4)
                &&& fits(s5, *d5)
                &&& fits(s6, *d6)
                &&& fits(s7, *d7)
                &&& fits(s8, *d8)
            }
        ) ==> #[trigger] f.requires((d1, d2, d3, d4, d5, d6, d7, d8))
}

/// 8 locks taken together, left to right; see [`Mutex`].
pub trait TupleExt08<D1, D2, D3, D4, D5, D6, D7, D8> {
    /// What the handles of the tuple show of their data, in order.
    spec fn guarded(&self) -> (
        Option<D1>, Option<D2>, Option<D3>, Option<D4>, Option<D5>, Option<D6>, Option<D7>,
        Option<D8>,
    );

    /// Creates a critical section and grants temporary access to the protected data of
    /// every lock of the tuple: the locks are taken from left to right and released in
    /// the reverse order, and the closure runs once, inside all of them.
    fn lock<R, F>(&mut self, f: F) -> (r: R) where
        F: FnOnce(&mut D1, &mut D2, &mut D3, &mut D4, &mut D5, &mut D6, &mut D7, &mut D8) -> R,
        requires
            accepts8::<D1, D2, D3, D4, D5, D6, D7, D8, R, F>(
                f, old(self).guarded().0, old(self).guarded().1, old(self).guarded().2,
                old(self).guarded().3, old(self).guarded().4, old(self).guarded().5,
                old(self).guarded().6, old(self).guarded().7,
            ),
        ensures
            exists|
                d1: &mut D1, d2: &mut D2, d3: &mut D3, d4: &mut D4, d5: &mut D5, d6: &mut D6,
                d7: &mut D7, d8: &mut D8,
            |
                #![trigger f.ensures((d1, d2, d3, d4, d5, d6, d7, d8), r)]
                {
                    &&& fits(old(self).guarded().0, *d1)
                    &&& fits(final(self).guarded().0, *final(d1))
                    &&& fits(old(self).guarded().1, *d2)
                    &&& fits(final(self).guarded().1, *final(d2))
                    &&& fits(old(self).guarded().2, *d3)
                    &&& fits(final(self).guarded().2, *final(d3))
                    &&& fits(old(self).guarded().3, *d4)
                    &&& fits(final(self).guarded().3, *final(d4))
                    &&& fits(old(self).guarded().4, *d5)
                    &&& fits(final(self).guarded().4, *final(d5))
                    &&& fits(old(self).guarded().5, *d6)
                    &&& fits(final(self).guarded().5, *final(d6))
                    &&& fits(old(self).guarded().6, *d7)
                    &&& fits(final(self).guarded().6, *final(d7))
                    &&& fits(old(self).guarded().7, *d8)
                    &&& fits(final(self).guarded().7, *final(d8))
                    &&& f.ensures((d1, d2, d3, d4, d5, d6, d7, d8), r)
                },
    ;
}

/// Takes `l1` to `l8` from left to right, runs `f` on their data inside all of them, and
/// releases them in the reverse order.
fn lock_all8<D1, D2, D3, D4, D5, D6, D7, D8, T1, T2, T3, T4, T5, T6, T7, T8, R, F>(
    l1: &mut T1,
    l2: &mut T2,
    l3: &mut T3,
    l4: &mut T4,
    l5: &mut T5,
    l6: &mut T6,
    l7: &mut T7,
    l8: &mut T8,
    f: F,
) -> (r: R) where
    T1: Mutex<D1>,
    T2: Mutex<D2>,
    T3: Mutex<D3>,
    T4: Mutex<D4>,
    T5: Mutex<D5>,
    T6: Mutex<D6>,
    T7: Mutex<D7>,
    T8: Mutex<D8>,
    F: FnOnce(&mut D1, &mut D2, &mut D3, &mut D4, &mut D5, &mut D6, &mut D7, &mut D8) -> R,
    requires
        accepts8::<D1, D2, D3, D4, D5, D6, D7, D8, R, F>(
            f, (*old(l1)).guarded(), (*old(l2)).guarded(), (*old(l3)).guarded(),
            (*old(l4)).guarded(), (*old(l5)).guarded(), (*old(l6)).guarded(), (*old(l7)).guarded(),
            (*old(l8)).guarded(),
        ),
    ensures
        exists|
            d1: &mut D1, d2: &mut D2, d3: &mut D3, d4: &mut D4, d5: &mut D5, d6: &mut D6,
            d7: &mut D7, d8: &mut D8,
        |
            #![trigger f.ensures((d1, d2, d3, d4, d5, d6, d7, d8), r)]
            {
                &&& fits((*old(l1)).guarded(), *d1) && fits((*final(l1)).guarded(), *final(d1))
                &&& fits((*old(l2)).guarded(), *d2) && fits((*final(l2)).guarded(), *final(d2))
                &&& fits((*old(l3)).guarded(), *d3) && fits((*final(l3)).guarded(), *final(d3))
                &&& fits((*old(l4)).guarded(), *d4) && fits((*final(l4)).guarded(), *final(d4))
                &&& fits((*old(l5)).guarded(), *d5) && fits((*final(l5)).guarded(), *final(d5))
                &&& fits((*old(l6)).guarded(), *d6) && fits((*final(l6)).guarded(), *final(d6))
                &&& fits((*old(l7)).guarded(), *d7) && fits((*final(l7)).guarded(), *final(d7))
                &&& fits((*old(l8)).guarded(), *d8) && fits((*final(l8)).guarded(), *final(d8))
                &&& f.ensures((d1, d2, d3, d4, d5, d6, d7, d8), r)
            },
{
    let ghost s1 = l1.guarded();
    let ghost s2 = l2.guarded();
    let ghost s3 = l3.guarded();
    let ghost s4 = l4.guarded();
    let ghost s5 = l5.guarded();
    let ghost s6 = l6.guarded();
    let ghost s7 = l7.guarded();
    let ghost s8 = l8.guarded();
    let rest = (l2, l3, l4, l5, l6, l7, l8);
    l1.lock(
        move |d1: &mut D1| -> (r: R)
            requires
                fits(s1, *d1),
                rest.0.guarded() == s2,
                rest.1.guarded() == s3,
                rest.2.guarded() == s4,
                rest.3.guarded() == s5,
                rest.4.guarded() == s6,
                rest.5.guarded() == s7,
                rest.6.guarded() == s8,
                accepts8::<D1, D2, D3, D4, D5, D6, D7, D8, R, F>(f, s1, s2, s3, s4, s5, s6, s7, s8),
            ensures
                exists|
                    e1: &mut D1, e2: &mut D2, e3: &mut D3, e4: &mut D4, e5: &mut D5, e6: &mut D6,
                    e7: &mut D7, e8: &mut D8,
                |
                    #![trigger f.ensures((e1, e2, e3, e4, e5, e6, e7, e8), r)]
                    {
                        &&& *e1 == *old(d1) && *final(e1) == *final(d1)
                        &&& fits(s2, *e2) && fits((*final(rest.0)).guarded(), *final(e2))
                        &&& fits(s3, *e3) && fits((*final(rest.1)).guarded(), *final(e3))
                        &&& fits(s4, *e4) && fits((*final(rest.2)).guarded(), *final(e4))
                        &&& fits(s5, *e5) && fits((*final(rest.3)).guarded(), *final(e5))
                        &&& fits(s6, *e6) && fits((*final(rest.4)).guarded(), *final(e6))
                        &&& fits(s7, *e7) && fits((*final(rest.5)).guarded(), *final(e7))
                        &&& fits(s8, *e8) && fits((*final(rest.6)).guarded(), *final(e8))
                        &&& f.ensures((e1, e2, e3, e4, e5, e6, e7, e8), r)
                    },
        {
            let (l2, l3, l4, l5, l6, l7, l8) = rest;
            let held = (d1,);
            lock_all7(
                l2,
                l3,
                l4,
                l5,
                l6,
                l7,
                l8,
                move |
                    d2: &mut D2, d3: &mut D3, d4: &mut D4, d5: &mut D5, d6: &mut D6, d7: &mut D7,
                    d8: &mut D8,
                | -> (r: R)
                    requires
                        fits(s2, *d2),
                        fits(s3, *d3),
                        fits(s4, *d4),
                        fits(s5, *d5),
                        fits(s6, *d6),
                        fits(s7, *d7),
                        fits(s8, *d8),
                        fits(s1, *held.0),
                        accepts8::<D1, D2, D3, D4, D5, D6, D7, D8, R, F>(
                            f, s1, s2, s3, s4, s5, s6, s7, s8,
                        ),
                    ensures
                        exists|
                            e1: &mut D1, e2: &mut D2, e3: &mut D3, e4: &mut D4, e5: &mut D5,
                            e6: &mut D6, e7: &mut D7, e8: &mut D8,
                        |
                            #![trigger f.ensures((e1, e2, e3, e4, e5, e6, e7, e8), r)]
                            {
                                &&& *e1 == *held.0 && *final(e1) == *final(held.0)
                                &&& *e2 == *old(d2) && *final(e2) == *final(d2)
                                &&& *e3 == *old(d3) && *final(e3) == *final(d3)
                                &&& *e4 == *old(d4) && *final(e4) == *final(d4)
                                &&& *e5 == *old(d5) && *final(e5) == *final(d5)
                                &&& *e6 == *old(d6) && *final(e6) == *final(d6)
                                &&& *e7 == *old(d7) && *final(e7) == *final(d7)
                                &&& *e8 == *old(d8) && *final(e8) == *final(d8)
                                &&& f.ensures((e1, e2, e3, e4, e5, e6, e7, e8), r)
                            },
                {
                    let (h1,) = held;
                    f(h1, d2, d3, d4, d5, d6, d7, d8)
                }
            )
        }
    )
}

impl<D1, D2, D3, D4, D5, D6, D7, D8, T1, T2, T3, T4, T5, T6, T7, T8>
    TupleExt08<D1, D2, D3, D4, D5, D6, D7, D8> for (T1, T2, T3, T4, T5, T6, T7, T8)
where
    T1: Mutex<D1>,
    T2: Mutex<D2>,
    T3: Mutex<D3>,
    T4: Mutex<D4>,
    T5: Mutex<D5>,
    T6: Mutex<D6>,
    T7: Mutex<D7>,
    T8: Mutex<D8>,
{
    open spec fn guarded(&self) -> (
        Option<D1>, Option<D2>, Option<D3>, Option<D4>, Option<D5>, Option<D6>, Option<D7>,
        Option<D8>,
    ) {
        (
            self.0.guarded(), self.1.guarded(), self.2.guarded(), self.3.guarded(),
            self.4.guarded(), self.5.guarded(), self.6.guarded(), self.7.guarded(),
        )
    }

    fn lock<R, F>(&mut self, f: F) -> (r: R) where
        F: FnOnce(&mut D1, &mut D2, &mut D3, &mut D4, &mut D5, &mut D6, &mut D7, &mut D8) -> R,
    {
        lock_all8(
            &mut self.0, &mut self.1, &mut self.2, &mut self.3, &mut self.4, &mut self.5,
            &mut self.6, &mut self.7, f,
        )
    }
}

/// `f` may be called on every 9 references whose current values fit `s1` to `s9`.
pub open spec fn accepts9<D1, D2, D3, D4, D5, D6, D7, D8, D9, R, F>(
    f: F,
    s1: Option<D1>,
    s2: Option<D2>,
    s3: Option<D3>,
    s4: Option<D4>,
    s5: Option<D5>,
    s6: Option<D6>,
    s7: Option<D7>,
    s8: Option<D8>,
    s9: Option<D9>,
) -> bool where
    F: FnOnce(&mut D1, &mut D2, &mut D3, &mut D4, &mut D5, &mut D6, &mut D7, &mut D8, &mut D9) -> R,
{
    forall|
        d1: &mut D1, d2: &mut D2, d3: &mut D3, d4: &mut D4, d5: &mut D5, d6: &mut D6, d7: &mut D7,
        d8: &mut D8, d9: &mut D9,
    |
        (
            {
                &&& fits(s1, *d1)
                &&& fits(s2, *d2)
                &&& fits(s3, *d3)
                &&& fits(s4, *d4)
                &&& fits(s5, *d5)
                &&& fits(s6, *d6)
                &&& fits(s7, *d7)
                &&& fits(s8, *d8)
                &&& fits(s9, *d9)
            }
        ) ==> #[trigger] f.requires((d1, d2, d3, d4, d5, d6, d7, d8, d9))
}

/// 9 locks taken together, left to right; see [`Mutex`].
pub trait TupleExt09<D1, D2, D3, D4, D5, D6, D7, D8, D9> {
    /// What the handles of the tuple show of their data, in order.
    spec fn guarded(&self) -> (
        Option<D1>, Option<D2>, Option<D3>, Option<D4>, Option<D5>, Option<D6>, Option<D7>,
        Option<D8>, Option<D9>,
    );

    /// Creates a critical section and grants temporary access to the protected data of
    /// every lock of the tuple: the locks are taken from left to right and released in
    /// the reverse order, and the closure runs once, inside all of them.
    fn lock<R, F>(&mut self, f: F) -> (r: R) where
        F: FnOnce(
            &mut D1, &mut D2, &mut D3, &mut D4, &mut D5, &mut D6, &mut D7, &mut D8, &mut D9,
        ) -> R,
        requires
            accepts9::<D1, D2, D3, D4, D5, D6, D7, D8, D9, R, F>(
                f, old(self).guarded().0, old(self).guarded().1, old(self).guarded().2,
                old(self).guarded().3, old(self).guarded().4, old(self).guarded().5,
                old(self).guarded().6, old(self).guarded().7, old(self).guarded().8,
            ),
        ensures
            exists|
                d1: &mut D1, d2: &mut D2, d3: &mut D3, d4: &mut D4, d5: &mut D5, d6: &mut D6,
                d7: &mut D7, d8: &mut D8, d9: &mut D9,
            |
                #![trigger f.ensures((d1, d2, d3, d4, d5, d6, d7, d8, d9), r)]
                {
                    &&& fits(old(self).guarded().0, *d1)
                    &&& fits(final(self).guarded().0, *final(d1))
                    &&& fits(old(self).guarded().1, *d2)
                    &&& fits(final(self).guarded().1, *final(d2))
                    &&& fits(old(self).guarded().2, *d3)
                    &&& fits(final(self).guarded().2, *final(d3))
                    &&& fits(old(self).guarded().3, *d4)
                    &&& fits(final(self).guarded().3, *final(d4))
                    &&& fits(old(self).guarded().4, *d5)
                    &&& fits(final(self).guarded().4, *final(d5))
                    &&& fits(old(self).guarded().5, *d6)
                    &&& fits(final(self).guarded().5, *final(d6))
                    &&& fits(old(self).guarded().6, *d7)
                    &&& fits(final(self).guarded().6, *final(d7))
                    &&& fits(old(self).guarded().7, *d8)
                    &&& fits(final(self).guarded().7, *final(d8))
                    &&& fits(old(self).guarded().8, *d9)
                    &&& fits(final(self).guarded().8, *final(d9))
                    &&& f.ensures((d1, d2, d3, d4, d5, d6, d7, d8, d9), r)
                },
    ;
}

/// Takes `l1` to `l9` from left to right, runs `f` on their data inside all of them, and
/// releases them in the reverse order.
fn lock_all9<D1, D2, D3, D4, D5, D6, D7, D8, D9, T1, T2, T3, T4, T5, T6, T7, T8, T9, R, F>(
    l1: &mut T1,
    l2: &mut T2,
    l3: &mut T3,
    l4: &mut T4,
    l5: &mut T5,
    l6: &mut T6,
    l7: &mut T7,
    l8: &mut T8,
    l9: &mut T9,
    f: F,
) -> (r: R) where
    T1: Mutex<D1>,
    T2: Mutex<D2>,
    T3: Mutex<D3>,
    T4: Mutex<D4>,
    T5: Mutex<D5>,
    T6: Mutex<D6>,
    T7: Mutex<D7>,
    T8: Mutex<D8>,
    T9: Mutex<D9>,
    F: FnOnce(&mut D1, &mut D2, &mut D3, &mut D4, &mut D5, &mut D6, &mut D7, &mut D8, &mut D9) -> R,
    requires
        accepts9::<D1, D2, D3, D4, D5, D6, D7, D8, D9, R, F>(
            f, (*old(l1)).guarded(), (*old(l2)).guarded(), (*old(l3)).guarded(),
            (*old(l4)).guarded(), (*old(l5)).guarded(), (*old(l6)).guarded(), (*old(l7)).guarded(),
            (*old(l8)).guarded(), (*old(l9)).guarded(),
        ),
    ensures
        exists|
            d1: &mut D1, d2: &mut D2, d3: &mut D3, d4: &mut D4, d5: &mut D5, d6: &mut D6,
            d7: &mut D7, d8: &mut D8, d9: &mut D9,
        |
            #![trigger f.ensures((d1, d2, d3, d4, d5, d6, d7, d8, d9), r)]
            {
                &&& fits((*old(l1)).guarded(), *d1) && fits((*final(l1)).guarded(), *final(d1))
                &&& fits((*old(l2)).guarded(), *d2) && fits((*final(l2)).guarded(), *final(d2))
                &&& fits((*old(l3)).guarded(), *d3) && fits((*final(l3)).guarded(), *final(d3))
                &&& fits((*old(l4)).guarded(), *d4) && fits((*final(l4)).guarded(), *final(d4))
                &&& fits((*old(l5)).guarded(), *d5) && fits((*final(l5)).guarded(), *final(d5))
                &&& fits((*old(l6)).guarded(), *d6) && fits((*final(l6)).guarded(), *final(d6))
                &&& fits((*old(l7)).guarded(), *d7) && fits((*final(l7)).guarded(), *final(d7))
                &&& fits((*old(l8)).guarded(), *d8) && fits((*final(l8)).guarded(), *final(d8))
                &&& fits((*old(l9)).guarded(), *d9) && fits((*final(l9)).guarded(), *final(d9))
                &&& f.ensures((d1, d2, d3, d4, d5, d6, d7, d8, d9), r)
            },
{
    let ghost s1 = l1.guarded();
    let ghost s2 = l2.guarded();
    let ghost s3 = l3.guarded();
    let ghost s4 = l4.guarded();
    let ghost s5 = l5.guarded();
    let ghost s6 = l6.guarded();
    let ghost s7 = l7.guarded();
    let ghost s8 = l8.guarded();
    let ghost s9 = l9.guarded();
    let rest = (l2, l3, l4, l5, l6, l7, l8, l9);
    l1.lock(
        move |d1: &mut D1| -> (r: R)
            requires
                fits(s1, *d1),
                rest.0.guarded() == s2,
                rest.1.guarded() == s3,
                rest.2.guarded() == s4,
                rest.3.guarded() == s5,
                rest.4.guarded() == s6,
                rest.5.guarded() == s7,
                rest.6.guarded() == s8,
                rest.7.guarded() == s9,
                accepts9::<D1, D2, D3, D4, D5, D6, D7, D8, D9, R, F>(
                    f, s1, s2, s3, s4, s5, s6, s7, s8, s9,
                ),
            ensures
                exists|
                    e1: &mut D1, e2: &mut D2, e3: &mut D3, e4: &mut D4, e5: &mut D5, e6: &mut D6,
                    e7: &mut D7, e8: &mut D8, e9: &mut D9,
                |
                    #![trigger f.ensures((e1, e2, e3, e4, e5, e6, e7, e8, e9), r)]
                    {
                        &&& *e1 == *old(d1) && *final(e1) == *final(d1)
                        &&& fits(s2, *e2) && fits((*final(rest.0)).guarded(), *final(e2))
                        &&& fits(s3, *e3) && fits((*final(rest.1)).guarded(), *final(e3))
                        &&& fits(s4, *e4) && fits((*final(rest.2)).guarded(), *final(e4))
                        &&& fits(s5, *e5) && fits((*final(rest.3)).guarded(), *final(e5))
                        &&& fits(s6, *e6) && fits((*final(rest.4)).guarded(), *final(e6))
                        &&& fits(s7, *e7) && fits((*final(rest.5)).guarded(), *final(e7))
                        &&& fits(s8, *e8) && fits((*final(rest.6)).guarded(), *final(e8))
                        &&& fits(s9, *e9) && fits((*final(rest.7)).guarded(), *final(e9))
                        &&& f.ensures((e1, e2, e3, e4, e5, e6, e7, e8, e9), r)
                    },
        {
            let (l2, l3, l4, l5, l6, l7, l8, l9) = rest;
            let held = (d1,);
            lock_all8(
                l2,
                l3,
                l4,
                l5,
                l6,
                l7,
                l8,
                l9,
                move |
                    d2: &mut D2, d3: &mut D3, d4: &mut D4, d5: &mut D5, d6: &mut D6, d7: &mut D7,
                    d8: &mut D8, d9: &mut D9,
                | -> (r: R)
                    requires
                        fits(s2, *d2),
                        fits(s3, *d3),
                        fits(s4, *d4),
                        fits(s5, *d5),
                        fits(s6, *d6),
                        fits(s7, *d7),
                        fits(s8, *d8),
                        fits(s9, *d9),
                        fits(s1, *held.0),
                        accepts9::<D1, D2, D3, D4, D5, D6, D7, D8, D9, R, F>(
                            f, s1, s2, s3, s4, s5, s6, s7, s8, s9,
                        ),
                    ensures
                        exists|
                            e1: &mut D1, e2: &mut D2, e3: &mut D3, e4: &mut D4, e5: &mut D5,
                            e6: &mut D6, e7: &mut D7, e8: &mut D8, e9: &mut D9,
                        |
                            #![trigger f.ensures((e1, e2, e3, e4, e5, e6, e7, e8, e9), r)]
                            {
                                &&& *e1 == *held.0 && *final(e1) == *final(held.0)
                                &&& *e2 == *old(d2) && *final(e2) == *final(d2)
                                &&& *e3 == *old(d3) && *final(e3) == *final(d3)
                                &&& *e4 == *old(d4) && *final(e4) == *final(d4)
                                &&& *e5 == *old(d5) && *final(e5) == *final(d5)
                                &&& *e6 == *old(d6) && *final(e6) == *final(d6)
                                &&& *e7 == *old(d7) && *final(e7) == *final(d7)
                                &&& *e8 == *old(d8) && *final(e8) == *final(d8)
                                &&& *e9 == *old(d9) && *final(e9) == *final(d9)
                                &&& f.ensures((e1, e2, e3, e4, e5, e6, e7, e8, e9), r)
                            },
                {
                    let (h1,) = held;
                    f(h1, d2, d3, d4, d5, d6, d7, d8, d9)
                }
            )
        }
    )
}

impl<D1, D2, D3, D4, D5, D6, D7, D8, D9, T1, T2, T3, T4, T5, T6, T7, T8, T9>
    TupleExt09<D1, D2, D3, D4, D5, D6, D7, D8, D9> for (T1, T2, T3, T4, T5, T6, T7, T8, T9)
where
    T1: Mutex<D1>,
    T2: Mutex<D2>,
    T3: Mutex<D3>,
    T4: Mutex<D4>,
    T5: Mutex<D5>,
    T6: Mutex<D6>,
    T7: Mutex<D7>,
    T8: Mutex<D8>,
    T9: Mutex<D9>,
{
    open spec fn guarded(&self) -> (
        Option<D1>, Option<D2>, Option<D3>, Option<D4>, Option<D5>, Option<D6>, Option<D7>,
        Option<D8>, Option<D9>,
    ) {
        (
            self.0.guarded(), self.1.guarded(), self.2.guarded(), self.3.guarded(),
            self.4.guarded(), self.5.guarded(), self.6.guarded(), self.7.guarded(),
            self.8.guarded(),
        )
    }

    fn lock<R, F>(&mut self, f: F) -> (r: R) where
        F: FnOnce(
            &mut D1, &mut D2, &mut D3, &mut D4, &mut D5, &mut D6, &mut D7, &mut D8, &mut D9,
        ) -> R,
    {
        lock_all9(
            &mut self.0, &mut self.1, &mut self.2, &mut self.3, &mut self.4, &mut self.5,
            &mut self.6, &mut self.7, &mut self.8, f,
        )
    }
}

/// `f` may be called on every 10 references whose current values fit `s1` to `s10`.
pub open spec fn accepts10<D1, D2, D3, D4, D5, D6, D7, D8, D9, D10, R, F>(
    f: F,
    s1: Option<D1>,
    s2: Option<D2>,
    s3: Option<D3>,
    s4: Option<D4>,
    s5: Option<D5>,
    s6: Option<D6>,
    s7: Option<D7>,
    s8: Option<D8>,
    s9: Option<D9>,
    s10: Option<D10>,
) -> bool where
    F: FnOnce(
        &mut D1, &mut D2, &mut D3, &mut D4, &mut D5, &mut D6, &mut D7, &mut D8, &mut D9, &mut D10,
    ) -> R,
{
    forall|
        d1: &mut D1, d2: &mut D2, d3: &mut D3, d4: &mut D4, d5: &mut D5, d6: &mut D6, d7: &mut D7,
        d8: &mut D8, d9: &mut D9, d10: &mut D10,
    |
        (
            {
                &&& fits(s1, *d1)
                &&& fits(s2, *d2)
                &&& fits(s3, *d3)
                &&& fits(s4, *d4)
                &&& fits(s5, *d5)
                &&& fits(s6, *d6)
                &&& fits(s7, *d7)
                &&& fits(s8, *d8)
                &&& fits(s9, *d9)
                &&& fits(s10, *d10)
            }
        ) ==> #[trigger] f.requires((d1, d2, d3, d4, d5, d6, d7, d8, d9, d10))
}

/// 10 locks taken together, left to right; see [`Mutex`].
pub trait TupleExt10<D1, D2, D3, D4, D5, D6, D7, D8, D9, D10> {
    /// What the handles of the tuple show of their data, in order.
    spec fn guarded(&self) -> (
        Option<D1>, Option<D2>, Option<D3>, Option<D4>, Option<D5>, Option<D6>, Option<D7>,
        Option<D8>, Option<D9>, Option<D10>,
    );

    /// Creates a critical section and grants temporary access to the protected data of
    /// every lock of the tuple: the locks are taken from left to right and released in
    /// the reverse order, and the closure runs once, inside all of them.
    fn lock<R, F>(&mut self, f: F) -> (r: R) where
        F: FnOnce(
            &mut D1, &mut D2, &mut D3, &mut D4, &mut D5, &mut D6, &mut D7, &mut D8, &mut D9,
            &mut D10,
        ) -> R,
        requires
            accepts10::<D1, D2, D3, D4, D5, D6, D7, D8, D9, D10, R, F>(
                f, old(self).guarded().0, old(self).guarded().1, old(self).guarded().2,
                old(self).guarded().3, old(self).guarded().4, old(self).guarded().5,
                old(self).guarded().6, old(self).guarded().7, old(self).guarded().8,
                old(self).guarded().9,
            ),
        ensures
            exists|
                d1: &mut D1, d2: &mut D2, d3: &mut D3, d4: &mut D4, d5: &mut D5, d6: &mut D6,
                d7: &mut D7, d8: &mut D8, d9: &mut D9, d10: &mut D10,
            |
                #![trigger f.ensures((d1, d2, d3, d4, d5, d6, d7, d8, d9, d10), r)]
                {
                    &&& fits(old(self).guarded().0, *d1)
                    &&& fits(final(self).guarded().0, *final(d1))
                    &&& fits(old(self).guarded().1, *d2)
                    &&& fits(final(self).guarded().1, *final(d2))
                    &&& fits(old(self).guarded().2, *d3)
                    &&& fits(final(self).guarded().2, *final(d3))
                    &&& fits(old(self).guarded().3, *d4)
                    &&& fits(final(self).guarded().3, *final(d4))
                    &&& fits(old(self).guarded().4, *d5)
                    &&& fits(final(self).guarded().4, *final(d5))
                    &&& fits(old(self).guarded().5, *d6)
                    &&& fits(final(self).guarded().5, *final(d6))
                    &&& fits(old(self).guarded().6, *d7)
                    &&& fits(final(self).guarded().6, *final(d7))
                    &&& fits(old(self).guarded().7, *d8)
                    &&& fits(final(self).guarded().7, *final(d8))
                    &&& fits(old(self).guarded().8, *d9)
                    &&& fits(final(self).guarded().8, *final(d9))
                    &&& fits(old(self).guarded().9, *d10)
                    &&& fits(final(self).guarded().9, *final(d10))
                    &&& f.ensures((d1, d2, d3, d4, d5, d6, d7, d8, d9, d10), r)
                },
    ;
}

/// Takes `l1` to `l10` from left to right, runs `f` on their data inside all of them, and
/// releases them in the reverse order.
fn lock_all10<
    D1, D2, D3, D4, D5, D6, D7, D8, D9, D10, T1, T2, T3, T4, T5, T6, T7, T8, T9, T10, R, F,
>(
    l1: &mut T1,
    l2: &mut T2,
    l3: &mut T3,
    l4: &mut T4,
    l5: &mut T5,
    l6: &mut T6,
    l7: &mut T7,
    l8: &mut T8,
    l9: &mut T9,
    l10: &mut T10,
    f: F,
) -> (r: R) where
    T1: Mutex<D1>,
    T2: Mutex<D2>,
    T3: Mutex<D3>,
    T4: Mutex<D4>,
    T5: Mutex<D5>,
    T6: Mutex<D6>,
    T7: Mutex<D7>,
    T8: Mutex<D8>,
    T9: Mutex<D9>,
    T10: Mutex<D10>,
    F: FnOnce(
        &mut D1, &mut D2, &mut D3, &mut D4, &mut D5, &mut D6, &mut D7, &mut D8, &mut D9, &mut D10,
    ) -> R,
    requires
        accepts10::<D1, D2, D3, D4, D5, D6, D7, D8, D9, D10, R, F>(
            f, (*old(l1)).guarded(), (*old(l2)).guarded(), (*old(l3)).guarded(),
            (*old(l4)).guarded(), (*old(l5)).guarded(), (*old(l6)).guarded(), (*old(l7)).guarded(),
            (*old(l8)).guarded(), (*old(l9)).guarded(), (*old(l10)).guarded(),
        ),
    ensures
        exists|
            d1: &mut D1, d2: &mut D2, d3: &mut D3, d4: &mut D4, d5: &mut D5, d6: &mut D6,
            d7: &mut D7, d8: &mut D8, d9: &mut D9, d10: &mut D10,
        |
            #![trigger f.ensures((d1, d2, d3, d4, d5, d6, d7, d8, d9, d10), r)]
            {
                &&& fits((*old(l1)).guarded(), *d1) && fits((*final(l1)).guarded(), *final(d1))
                &&& fits((*old(l2)).guarded(), *d2) && fits((*final(l2)).guarded(), *final(d2))
                &&& fits((*old(l3)).guarded(), *d3) && fits((*final(l3)).guarded(), *final(d3))
                &&& fits((*old(l4)).guarded(), *d4) && fits((*final(l4)).guarded(), *final(d4))
                &&& fits((*old(l5)).guarded(), *d5) && fits((*final(l5)).guarded(), *final(d5))
                &&& fits((*old(l6)).guarded(), *d6) && fits((*final(l6)).guarded(), *final(d6))
                &&& fits((*old(l7)).guarded(), *d7) && fits((*final(l7)).guarded(), *final(d7))
                &&& fits((*old(l8)).guarded(), *d8) && fits((*final(l8)).guarded(), *final(d8))
                &&& fits((*old(l9)).guarded(), *d9) && fits((*final(l9)).guarded(), *final(d9))
                &&& fits((*old(l10)).guarded(), *d10) && fits((*final(l10)).guarded(), *final(d10))
                &&& f.ensures((d1, d2, d3, d4, d5, d6, d7, d8, d9, d10), r)
            },
{
    let ghost s1 = l1.guarded();
    let ghost s2 = l2.guarded();
    let ghost s3 = l3.guarded();
    let ghost s4 = l4.guarded();
    let ghost s5 = l5.guarded();
    let ghost s6 = l6.guarded();
    let ghost s7 = l7.guarded();
    let ghost s8 = l8.guarded();
    let ghost s9 = l9.guarded();
    let ghost s10 = l10.guarded();
    let rest = (l2, l3, l4, l5, l6, l7, l8, l9, l10);
    l1.lock(
        move |d1: &mut D1| -> (r: R)
            requires
                fits(s1, *d1),
                rest.0.guarded() == s2,
                rest.1.guarded() == s3,
                rest.2.guarded() == s4,
                rest.3.guarded() == s5,
                rest.4.guarded() == s6,
                rest.5.guarded() == s7,
                rest.6.guarded() == s8,
                rest.7.guarded() == s9,
                rest.8.guarded() == s10,
                accepts10::<D1, D2, D3, D4, D5, D6, D7, D8, D9, D10, R, F>(
                    f, s1, s2, s3, s4, s5, s6, s7, s8, s9, s10,
                ),
            ensures
                exists|
                    e1: &mut D1, e2: &mut D2, e3: &mut D3, e4: &mut D4, e5: &mut D5, e6: &mut D6,
                    e7: &mut D7, e8: &mut D8, e9: &mut D9, e10: &mut D10,
                |
                    #![trigger f.ensures((e1, e2, e3, e4, e5, e6, e7, e8, e9, e10), r)]
                    {
                        &&& *e1 == *old(d1) && *final(e1) == *final(d1)
                        &&& fits(s2, *e2) && fits((*final(rest.0)).guarded(), *final(e2))
                        &&& fits(s3, *e3) && fits((*final(rest.1)).guarded(), *final(e3))
                        &&& fits(s4, *e4) && fits((*final(rest.2)).guarded(), *final(e4))
                        &&& fits(s5, *e5) && fits((*final(rest.3)).guarded(), *final(e5))
                        &&& fits(s6, *e6) && fits((*final(rest.4)).guarded(), *final(e6))
                        &&& fits(s7, *e7) && fits((*final(rest.5)).guarded(), *final(e7))
                        &&& fits(s8, *e8) && fits((*final(rest.6)).guarded(), *final(e8))
                        &&& fits(s9, *e9) && fits((*final(rest.7)).guarded(), *final(e9))
                        &&& fits(s10, *e10) && fits((*final(rest.8)).guarded(), *final(e10))
                        &&& f.ensures((e1, e2, e3, e4, e5, e6, e7, e8, e9, e10), r)
                    },
        {
            let (l2, l3, l4, l5, l6, l7, l8, l9, l10) = rest;
            let held = (d1,);
            lock_all9(
                l2,
                l3,
                l4,
                l5,
                l6,
                l7,
                l8,
                l9,
                l10,
                move |
                    d2: &mut D2, d3: &mut D3, d4: &mut D4, d5: &mut D5, d6: &mut D6, d7: &mut D7,
                    d8: &mut D8, d9: &mut D9, d10: &mut D10,
                | -> (r: R)
                    requires
                        fits(s2, *d2),
                        fits(s3, *d3),
                        fits(s4, *d4),
                        fits(s5, *d5),
                        fits(s6, *d6),
                        fits(s7, *d7),
                        fits(s8, *d8),
                        fits(s9, *d9),
                        fits(s10, *d10),
                        fits(s1, *held.0),
                        accepts10::<D1, D2, D3, D4, D5, D6, D7, D8, D9, D10, R, F>(
                            f, s1, s2, s3, s4, s5, s6, s7, s8, s9, s10,
                        ),
                    ensures
                        exists|
                            e1: &mut D1, e2: &mut D2, e3: &mut D3, e4: &mut D4, e5: &mut D5,
                            e6: &mut D6, e7: &mut D7, e8: &mut D8, e9: &mut D9, e10: &mut D10,
                        |
                            #![trigger f.ensures((e1, e2, e3, e4, e5, e6, e7, e8, e9, e10), r)]
                            {
                                &&& *e1 == *held.0 && *final(e1) == *final(held.0)
                                &&& *e2 == *old(d2) && *final(e2) == *final(d2)
                                &&& *e3 == *old(d3) && *final(e3) == *final(d3)
                                &&& *e4 == *old(d4) && *final(e4) == *final(d4)
                                &&& *e5 == *old(d5) && *final(e5) == *final(d5)
                                &&& *e6 == *old(d6) && *final(e6) == *final(d6)
                                &&& *e7 == *old(d7) && *final(e7) == *final(d7)
                                &&& *e8 == *old(d8) && *final(e8) == *final(d8)
                                &&& *e9 == *old(d9) && *final(e9) == *final(d9)
                                &&& *e10 == *old(d10) && *final(e10) == *final(d10)
                                &&& f.ensures((e1, e2, e3, e4, e5, e6, e7, e8, e9, e10), r)
                            },
                {
                    let (h1,) = held;
                    f(h1, d2, d3, d4, d5, d6, d7, d8, d9, d10)
                }
            )
        }
    )
}

impl<D1, D2, D3, D4, D5, D6, D7, D8, D9, D10, T1, T2, T3, T4, T5, T6, T7, T8, T9, T10>
    TupleExt10<D1, D2, D3, D4, D5, D6, D7, D8, D9, D10> for (
        T1, T2, T3, T4, T5, T6, T7, T8, T9, T10,
    )
where
    T1: Mutex<D1>,
    T2: Mutex<D2>,
    T3: Mutex<D3>,
    T4: Mutex<D4>,
    T5: Mutex<D5>,
    T6: Mutex<D6>,
    T7: Mutex<D7>,
    T8: Mutex<D8>,
    T9: Mutex<D9>,
    T10: Mutex<D10>,
{
    open spec fn guarded(&self) -> (
        Option<D1>, Option<D2>, Option<D3>, Option<D4>, Option<D5>, Option<D6>, Option<D7>,
        Option<D8>, Option<D9>, Option<D10>,
    ) {
        (
            self.0.guarded(), self.1.guarded(), self.2.guarded(), self.3.guarded(),
            self.4.guarded(), self.5.guarded(), self.6.guarded(), self.7.guarded(),
            self.8.guarded(), self.9.guarded(),
        )
    }

    fn lock<R, F>(&mut self, f: F) -> (r: R) where
        F: FnOnce(
            &mut D1, &mut D2, &mut D3, &mut D4, &mut D5, &mut D6, &mut D7, &mut D8, &mut D9,
            &mut D10,
        ) -> R,
    {
        lock_all10(
            &mut self.0, &mut self.1, &mut self.2, &mut self.3, &mut self.4, &mut self.5,
            &mut self.6, &mut self.7, &mut self.8, &mut self.9, f,
        )
    }
}

/// `f` may be called on every 11 references whose current values fit `s1` to `s11`.
pub open spec fn accepts11<D1, D2, D3, D4, D5, D6, D7, D8, D9, D10, D11, R, F>(
    f: F,
    s1: Option<D1>,
    s2: Option<D2>,
    s3: Option<D3>,
    s4: Option<D4>,
    s5: Option<D5>,
    s6: Option<D6>,
    s7: Option<D7>,
    s8: Option<D8>,
    s9: Option<D9>,
    s10: Option<D10>,
    s11: Option<D11>,
) -> bool where
    F: FnOnce(
        &mut D1, &mut D2, &mut D3, &mut D4, &mut D5, &mut D6, &mut D7, &mut D8, &mut D9, &mut D10,
        &mut D11,
    ) -> R,
{
    forall|
        d1: &mut D1, d2: &mut D2, d3: &mut D3, d4: &mut D4, d5: &mut D5, d6: &mut D6, d7: &mut D7,
        d8: &mut D8, d9: &mut D9, d10: &mut D10, d11: &mut D11,
    |
        (
            {
                &&& fits(s1, *d1)
                &&& fits(s2, *d2)
                &&& fits(s3, *d3)
                &&& fits(s4, *d4)
                &&& fits(s5, *d5)
                &&& fits(s6, *d6)
                &&& fits(s7, *d7)
                &&& fits(s8, *d8)
                &&& fits(s9, *d9)
                &&& fits(s10, *d10)
                &&& fits(s11, *d11)
            }
        ) ==> #[trigger] f.requires((d1, d2, d3, d4, d5, d6, d7, d8, d9, d10, d11))
}

/// 11 locks taken together, left to right; see [`Mutex`].
pub trait TupleExt11<D1, D2, D3, D4, D5, D6, D7, D8, D9, D10, D11> {
    /// What the handles of the tuple show of their data, in order.
    spec fn guarded(&self) -> (
        Option<D1>, Option<D2>, Option<D3>, Option<D4>, Option<D5>, Option<D6>, Option<D7>,
        Option<D8>, Option<D9>, Option<D10>, Option<D11>,
    );

    /// Creates a critical section and grants temporary access to the protected data of
    /// every lock of the tuple: the locks are taken from left to right and released in
    /// the reverse order, and the closure runs once, inside all of them.
    fn lock<R, F>(&mut self, f: F) -> (r: R) where
        F: FnOnce(
            &mut D1, &mut D2, &mut D3, &mut D4, &mut D5, &mut D6, &mut D7, &mut D8, &mut D9,
            &mut D10, &mut D11,
        ) -> R,
        requires
            accepts11::<D1, D2, D3, D4, D5, D6, D7, D8, D9, D10, D11, R, F>(
                f, old(self).guarded().0, old(self).guarded().1, old(self).guarded().2,
                old(self).guarded().3, old(self).guarded().4, old(self).guarded().5,
                old(self).guarded().6, old(self).guarded().7, old(self).guarded().8,
                old(self).guarded().9, old(self).guarded().10,
            ),
        ensures
            exists|
                d1: &mut D1, d2: &mut D2, d3: &mut D3, d4: &mut D4, d5: &mut D5, d6: &mut D6,
                d7: &mut D7, d8: &mut D8, d9: &mut D9, d10: &mut D10, d11: &mut D11,
            |
                #![trigger f.ensures((d1, d2, d3, d4, d5, d6, d7, d8, d9, d10, d11), r)]
                {
                    &&& fits(old(self).guarded().0, *d1)
                    &&& fits(final(self).guarded().0, *final(d1))
                    &&& fits(old(self).guarded().1, *d2)
                    &&& fits(final(self).guarded().1, *final(d2))
                    &&& fits(old(self).guarded().2, *d3)
                    &&& fits(final(self).guarded().2, *final(d3))
                    &&& fits(old(self).guarded().3, *d4)
                    &&& fits(final(self).guarded().3, *final(d4))
                    &&& fits(old(self).guarded().4, *d5)
                    &&& fits(final(self).guarded().4, *final(d5))
                    &&& fits(old(self).guarded().5, *d6)
                    &&& fits(final(self).guarded().5, *final(d6))
                    &&& fits(old(self).guarded().6, *d7)
                    &&& fits(final(self).guarded().6, *final(d7))
                    &&& fits(old(self).guarded().7, *d8)
                    &&& fits(final(self).guarded().7, *final(d8))
                    &&& fits(old(self).guarded().8, *d9)
                    &&& fits(final(self).guarded().8, *final(d9))
                    &&& fits(old(self).guarded().9, *d10)
                    &&& fits(final(self).guarded().9, *final(d10))
                    &&& fits(old(self).guarded().10, *d11)
                    &&& fits(final(self).guarded().10, *final(d11))
                    &&& f.ensures((d1, d2, d3, d4, d5, d6, d7, d8, d9, d10, d11), r)
                },
    ;
}

/// Takes `l1` to `l11` from left to right, runs `f` on their data inside all of them, and
/// releases them in the reverse order.
fn lock_all11<
    D1, D2, D3, D4, D5, D6, D7, D8, D9, D10, D11, T1, T2, T3, T4, T5, T6, T7, T8, T9, T10, T11, R,
    F,
>(
    l1: &mut T1,
    l2: &mut T2,
    l3: &mut T3,
    l4: &mut T4,
    l5: &mut T5,
    l6: &mut T6,
    l7: &mut T7,
    l8: &mut T8,
    l9: &mut T9,
    l10: &mut T10,
    l11: &mut T11,
    f: F,
) -> (r: R) where
    T1: Mutex<D1>,
    T2: Mutex<D2>,
    T3: Mutex<D3>,
    T4: Mutex<D4>,
    T5: Mutex<D5>,
    T6: Mutex<D6>,
    T7: Mutex<D7>,
    T8: Mutex<D8>,
    T9: Mutex<D9>,
    T10: Mutex<D10>,
    T11: Mutex<D11>,
    F: FnOnce(
        &mut D1, &mut D2, &mut D3, &mut D4, &mut D5, &mut D6, &mut D7, &mut D8, &mut D9, &mut D10,
        &mut D11,
    ) -> R,
    requires
        accepts11::<D1, D2, D3, D4, D5, D6, D7, D8, D9, D10, D11, R, F>(
            f, (*old(l1)).guarded(), (*old(l2)).guarded(), (*old(l3)).guarded(),
            (*old(l4)).guarded(), (*old(l5)).guarded(), (*old(l6)).guarded(), (*old(l7)).guarded(),
            (*old(l8)).guarded(), (*old(l9)).guarded(), (*old(l10)).guarded(),
            (*old(l11)).guarded(),
        ),
    ensures
        exists|
            d1: &mut D1, d2: &mut D2, d3: &mut D3, d4: &mut D4, d5: &mut D5, d6: &mut D6,
            d7: &mut D7, d8: &mut D8, d9: &mut D9, d10: &mut D10, d11: &mut D11,
        |
            #![trigger f.ensures((d1, d2, d3, d4, d5, d6, d7, d8, d9, d10, d11), r)]
            {
                &&& fits((*old(l1)).guarded(), *d1) && fits((*final(l1)).guarded(), *final(d1))
                &&& fits((*old(l2)).guarded(), *d2) && fits((*final(l2)).guarded(), *final(d2))
                &&& fits((*old(l3)).guarded(), *d3) && fits((*final(l3)).guarded(), *final(d3))
                &&& fits((*old(l4)).guarded(), *d4) && fits((*final(l4)).guarded(), *final(d4))
                &&& fits((*old(l5)).guarded(), *d5) && fits((*final(l5)).guarded(), *final(d5))
                &&& fits((*old(l6)).guarded(), *d6) && fits((*final(l6)).guarded(), *final(d6))
                &&& fits((*old(l7)).guarded(), *d7) && fits((*final(l7)).guarded(), *final(d7))
                &&& fits((*old(l8)).guarded(), *d8) && fits((*final(l8)).guarded(), *final(d8))
                &&& fits((*old(l9)).guarded(), *d9) && fits((*final(l9)).guarded(), *final(d9))
                &&& fits((*old(l10)).guarded(), *d10) && fits((*final(l10)).guarded(), *final(d10))
                &&& fits((*old(l11)).guarded(), *d11) && fits((*final(l11)).guarded(), *final(d11))
                &&& f.ensures((d1, d2, d3, d4, d5, d6, d7, d8, d9, d10, d11), r)
            },
{
    let ghost s1 = l1.guarded();
    let ghost s2 = l2.guarded();
    let ghost s3 = l3.guarded();
    let ghost s4 = l4.guarded();
    let ghost s5 = l5.guarded();
    let ghost s6 = l6.guarded();
    let ghost s7 = l7.guarded();
    let ghost s8 = l8.guarded();
    let ghost s9 = l9.guarded();
    let ghost s10 = l10.guarded();
    let ghost s11 = l11.guarded();
    let rest = (l2, l3, l4, l5, l6, l7, l8, l9, l10, l11);
    l1.lock(
        move |d1: &mut D1| -> (r: R)
            requires
                fits(s1, *d1),
                rest.0.guarded() == s2,
                rest.1.guarded() == s3,
                rest.2.guarded() == s4,
                rest.3.guarded() == s5,
                rest.4.guarded() == s6,
                rest.5.guarded() == s7,
                rest.6.guarded() == s8,
                rest.7.guarded() == s9,
                rest.8.guarded() == s10,
                rest.9.guarded() == s11,
                accepts11::<D1, D2, D3, D4, D5, D6, D7, D8, D9, D10, D11, R, F>(
                    f, s1, s2, s3, s4, s5, s6, s7, s8, s9, s10, s11,
                ),
            ensures
                exists|
                    e1: &mut D1, e2: &mut D2, e3: &mut D3, e4: &mut D4, e5: &mut D5, e6: &mut D6,
                    e7: &mut D7, e8: &mut D8, e9: &mut D9, e10: &mut D10, e11: &mut D11,
                |
                    #![trigger f.ensures((e1, e2, e3, e4, e5, e6, e7, e8, e9, e10, e11), r)]
                    {
                        &&& *e1 == *old(d1) && *final(e1) == *final(d1)
                        &&& fits(s2, *e2) && fits((*final(rest.0)).guarded(), *final(e2))
                        &&& fits(s3, *e3) && fits((*final(rest.1)).guarded(), *final(e3))
                        &&& fits(s4, *e4) && fits((*final(rest.2)).guarded(), *final(e4))
                        &&& fits(s5, *e5) && fits((*final(rest.3)).guarded(), *final(e5))
                        &&& fits(s6, *e6) && fits((*final(rest.4)).guarded(), *final(e6))
                        &&& fits(s7, *e7) && fits((*final(rest.5)).guarded(), *final(e7))
                        &&& fits(s8, *e8) && fits((*final(rest.6)).guarded(), *final(e8))
                        &&& fits(s9, *e9) && fits((*final(rest.7)).guarded(), *final(e9))
                        &&& fits(s10, *e10) && fits((*final(rest.8)).guarded(), *final(e10))
                        &&& fits(s11, *e11) && fits((*final(rest.9)).guarded(), *final(e11))
                        &&& f.ensures((e1, e2, e3, e4, e5, e6, e7, e8, e9, e10, e11), r)
                    },
        {
            let (l2, l3, l4, l5, l6, l7, l8, l9, l10, l11) = rest;
            let held = (d1,);
            lock_all10(
                l2,
                l3,
                l4,
                l5,
                l6,
                l7,
                l8,
                l9,
                l10,
                l11,
                move |
                    d2: &mut D2, d3: &mut D3, d4: &mut D4, d5: &mut D5, d6: &mut D6, d7: &mut D7,
                    d8: &mut D8, d9: &mut D9, d10: &mut D10, d11: &mut D11,
                | -> (r: R)
                    requires
                        fits(s2, *d2),
                        fits(s3, *d3),
                        fits(s4, *d4),
                        fits(s5, *d5),
                        fits(s6, *d6),
                        fits(s7, *d7),
                        fits(s8, *d8),
                        fits(s9, *d9),
                        fits(s10, *d10),
                        fits(s11, *d11),
                        fits(s1, *held.0),
                        accepts11::<D1, D2, D3, D4, D5, D6, D7, D8, D9, D10, D11, R, F>(
                            f, s1, s2, s3, s4, s5, s6, s7, s8, s9, s10, s11,
                        ),
                    ensures
                        exists|
                            e1: &mut D1, e2: &mut D2, e3: &mut D3, e4: &mut D4, e5: &mut D5,
                            e6: &mut D6, e7: &mut D7, e8: &mut D8, e9: &mut D9, e10: &mut D10,
                            e11: &mut D11,
                        |
                            #![trigger f.ensures((e1, e2, e3, e4, e5, e6, e7, e8, e9, e10, e11), r)]
                            {
                                &&& *e1 == *held.0 && *final(e1) == *final(held.0)
                                &&& *e2 == *old(d2) && *final(e2) == *final(d2)
                                &&& *e3 == *old(d3) && *final(e3) == *final(d3)
                                &&& *e4 == *old(d4) && *final(e4) == *final(d4)
                                &&& *e5 == *old(d5) && *final(e5) == *final(d5)
                                &&& *e6 == *old(d6) && *final(e6) == *final(d6)
                                &&& *e7 == *old(d7) && *final(e7) == *final(d7)
                                &&& *e8 == *old(d8) && *final(e8) == *final(d8)
                                &&& *e9 == *old(d9) && *final(e9) == *final(d9)
                                &&& *e10 == *old(d10) && *final(e10) == *final(d10)
                                &&& *e11 == *old(d11) && *final(e11) == *final(d11)
                                &&& f.ensures((e1, e2, e3, e4, e5, e6, e7, e8, e9, e10, e11), r)
                            },
                {
                    let (h1,) = held;
                    f(h1, d2, d3, d4, d5, d6, d7, d8, d9, d10, d11)
                }
            )
        }
    )
}

impl<D1, D2, D3, D4, D5, D6, D7, D8, D9, D10, D11, T1, T2, T3, T4, T5, T6, T7, T8, T9, T10, T11>
    TupleExt11<D1, D2, D3, D4, D5, D6, D7, D8, D9, D10, D11> for (
        T1, T2, T3, T4, T5, T6, T7, T8, T9, T10, T11,
    )
where
    T1: Mutex<D1>,
    T2: Mutex<D2>,
    T3: Mutex<D3>,
    T4: Mutex<D4>,
    T5: Mutex<D5>,
    T6: Mutex<D6>,
    T7: Mutex<D7>,
    T8: Mutex<D8>,
    T9: Mutex<D9>,
    T10: Mutex<D10>,
    T11: Mutex<D11>,
{
    open spec fn guarded(&self) -> (
        Option<D1>, Option<D2>, Option<D3>, Option<D4>, Option<D5>, Option<D6>, Option<D7>,
        Option<D8>, Option<D9>, Option<D10>, Option<D11>,
    ) {
        (
            self.0.guarded(), self.1.guarded(), self.2.guarded(), self.3.guarded(),
            self.4.guarded(), self.5.guarded(), self.6.guarded(), self.7.guarded(),
            self.8.guarded(), self.9.guarded(), self.10.guarded(),
        )
    }

    fn lock<R, F>(&mut self, f: F) -> (r: R) where
        F: FnOnce(
            &mut D1, &mut D2, &mut D3, &mut D4, &mut D5, &mut D6, &mut D7, &mut D8, &mut D9,
            &mut D10, &mut D11,
        ) -> R,
    {
        lock_all11(
            &mut self.0, &mut self.1, &mut self.2, &mut self.3, &mut self.4, &mut self.5,
            &mut self.6, &mut self.7, &mut self.8, &mut self.9, &mut self.10, f,
        )
    }
}

/// `f` may be called on every 12 references whose current values fit `s1` to `s12`.
pub open spec fn accepts12<D1, D2, D3, D4, D5, D6, D7, D8, D9, D10, D11, D12, R, F>(
    f: F,
    s1: Option<D1>,
    s2: Option<D2>,
    s3: Option<D3>,
    s4: Option<D4>,
    s5: Option<D5>,
    s6: Option<D6>,
    s7: Option<D7>,
    s8: Option<D8>,
    s9: Option<D9>,
    s10: Option<D10>,
    s11: Option<D11>,
    s12: Option<D12>,
) -> bool where
    F: FnOnce(
        &mut D1, &mut D2, &mut D3, &mut D4, &mut D5, &mut D6, &mut D7, &mut D8, &mut D9, &mut D10,
        &mut D11, &mut D12,
    ) -> R,
{
    forall|
        d1: &mut D1, d2: &mut D2, d3: &mut D3, d4: &mut D4, d5: &mut D5, d6: &mut D6, d7: &mut D7,
        d8: &mut D8, d9: &mut D9, d10: &mut D10, d11: &mut D11, d12: &mut D12,
    |
        (
            {
                &&& fits(s1, *d1)
                &&& fits(s2, *d2)
                &&& fits(s3, *d3)
                &&& fits(s4, *d4)
                &&& fits(s5, *d5)
                &&& fits(s6, *d6)
                &&& fits(s7, *d7)
                &&& fits(s8, *d8)
                &&& fits(s9, *d9)
                &&& fits(s10, *d10)
                &&& fits(s11, *d11)
                &&& fits(s12, *d12)
            }
        ) ==> #[trigger] f.requires((d1, d2, d3, d4, d5, d6, d7, d8, d9, d10, d11, d12))
}

/// 12 locks taken together, left to right; see [`Mutex`].
pub trait TupleExt12<D1, D2, D3, D4, D5, D6, D7, D8, D9, D10, D11, D12> {
    /// What the handles of the tuple show of their data, in order.
    spec fn guarded(&self) -> (
        Option<D1>, Option<D2>, Option<D3>, Option<D4>, Option<D5>, Option<D6>, Option<D7>,
        Option<D8>, Option<D9>, Option<D10>, Option<D11>, Option<D12>,
    );

    /// Creates a critical section and grants temporary access to the protected data of
    /// every lock of the tuple: the locks are taken from left to right and released in
    /// the reverse order, and the closure runs once, inside all of them.
    fn lock<R, F>(&mut self, f: F) -> (r: R) where
        F: FnOnce(
            &mut D1, &mut D2, &mut D3, &mut D4, &mut D5, &mut D6, &mut D7, &mut D8, &mut D9,
            &mut D10, &mut D11, &mut D12,
        ) -> R,
        requires
            accepts12::<D1, D2, D3, D4, D5, D6, D7, D8, D9, D10, D11, D12, R, F>(
                f, old(self).guarded().0, old(self).guarded().1, old(self).guarded().2,
                old(self).guarded().3, old(self).guarded().4, old(self).guarded().5,
                old(self).guarded().6, old(self).guarded().7, old(self).guarded().8,
                old(self).guarded().9, old(self).guarded().10, old(self).guarded().11,
            ),
        ensures
            exists|
                d1: &mut D1, d2: &mut D2, d3: &mut D3, d4: &mut D4, d5: &mut D5, d6: &mut D6,
                d7: &mut D7, d8: &mut D8, d9: &mut D9, d10: &mut D10, d11: &mut D11, d12: &mut D12,
            |
                #![trigger f.ensures((d1, d2, d3, d4, d5, d6, d7, d8, d9, d10, d11, d12), r)]
                {
                    &&& fits(old(self).guarded().0, *d1)
                    &&& fits(final(self).guarded().0, *final(d1))
                    &&& fits(old(self).guarded().1, *d2)
                    &&& fits(final(self).guarded().1, *final(d2))
                    &&& fits(old(self).guarded().2, *d3)
                    &&& fits(final(self).guarded().2, *final(d3))
                    &&& fits(old(self).guarded().3, *d4)
                    &&& fits(final(self).guarded().3, *final(d4))
                    &&& fits(old(self).guarded().4, *d5)
                    &&& fits(final(self).guarded().4, *final(d5))
                    &&& fits(old(self).guarded().5, *d6)
                    &&& fits(final(self).guarded().5, *final(d6))
                    &&& fits(old(self).guarded().6, *d7)
                    &&& fits(final(self).guarded().6, *final(d7))
                    &&& fits(old(self).guarded().7, *d8)
                    &&& fits(final(self).guarded().7, *final(d8))
                    &&& fits(old(self).guarded().8, *d9)
                    &&& fits(final(self).guarded().8, *final(d9))
                    &&& fits(old(self).guarded().9, *d10)
                    &&& fits(final(self).guarded().9, *final(d10))
                    &&& fits(old(self).guarded().10, *d11)
                    &&& fits(final(self).guarded().10, *final(d11))
                    &&& fits(old(self).guarded().11, *d12)
                    &&& fits(final(self).guarded().11, *final(d12))
                    &&& f.ensures((d1, d2, d3, d4, d5, d6, d7, d8, d9, d10, d11, d12), r)
                },
    ;
}

/// Takes `l1` to `l12` from left to right, runs `f` on their data inside all of them, and
/// releases them in the reverse order.
fn lock_all12<
    D1, D2, D3, D4, D5, D6, D7, D8, D9, D10, D11, D12, T1, T2, T3, T4, T5, T6, T7, T8, T9, T10, T11,
    T12, R, F,
>(
    l1: &mut T1,
    l2: &mut T2,
    l3: &mut T3,
    l4: &mut T4,
    l5: &mut T5,
    l6: &mut T6,
    l7: &mut T7,
    l8: &mut T8,
    l9: &mut T9,
    l10: &mut T10,
    l11: &mut T11,
    l12: &mut T12,
    f: F,
) -> (r: R) where
    T1: Mutex<D1>,
    T2: Mutex<D2>,
    T3: Mutex<D3>,
    T4: Mutex<D4>,
    T5: Mutex<D5>,
    T6: Mutex<D6>,
    T7: Mutex<D7>,
    T8: Mutex<D8>,
    T9: Mutex<D9>,
    T10: Mutex<D10>,
    T11: Mutex<D11>,
    T12: Mutex<D12>,
    F: FnOnce(
        &mut D1, &mut D2, &mut D3, &mut D4, &mut D5, &mut D6, &mut D7, &mut D8, &mut D9, &mut D10,
        &mut D11, &mut D12,
    ) -> R,
    requires
        accepts12::<D1, D2, D3, D4, D5, D6, D7, D8, D9, D10, D11, D12, R, F>(
            f, (*old(l1)).guarded(), (*old(l2)).guarded(), (*old(l3)).guarded(),
            (*old(l4)).guarded(), (*old(l5)).guarded(), (*old(l6)).guarded(), (*old(l7)).guarded(),
            (*old(l8)).guarded(), (*old(l9)).guarded(), (*old(l10)).guarded(),
            (*old(l11)).guarded(), (*old(l12)).guarded(),
        ),
    ensures
        exists|
            d1: &mut D1, d2: &mut D2, d3: &mut D3, d4: &mut D4, d5: &mut D5, d6: &mut D6,
            d7: &mut D7, d8: &mut D8, d9: &mut D9, d10: &mut D10, d11: &mut D11, d12: &mut D12,
        |
            #![trigger f.ensures((d1, d2, d3, d4, d5, d6, d7, d8, d9, d10, d11, d12), r)]
            {
                &&& fits((*old(l1)).guarded(), *d1) && fits((*final(l1)).guarded(), *final(d1))
                &&& fits((*old(l2)).guarded(), *d2) && fits((*final(l2)).guarded(), *final(d2))
                &&& fits((*old(l3)).guarded(), *d3) && fits((*final(l3)).guarded(), *final(d3))
                &&& fits((*old(l4)).guarded(), *d4) && fits((*final(l4)).guarded(), *final(d4))
                &&& fits((*old(l5)).guarded(), *d5) && fits((*final(l5)).guarded(), *final(d5))
                &&& fits((*old(l6)).guarded(), *d6) && fits((*final(l6)).guarded(), *final(d6))
                &&& fits((*old(l7)).guarded(), *d7) && fits((*final(l7)).guarded(), *final(d7))
                &&& fits((*old(l8)).guarded(), *d8) && fits((*final(l8)).guarded(), *final(d8))
                &&& fits((*old(l9)).guarded(), *d9) && fits((*final(l9)).guarded(), *final(d9))
                &&& fits((*old(l10)).guarded(), *d10) && fits((*final(l10)).guarded(), *final(d10))
                &&& fits((*old(l11)).guarded(), *d11) && fits((*final(l11)).guarded(), *final(d11))
                &&& fits((*old(l12)).guarded(), *d12) && fits((*final(l12)).guarded(), *final(d12))
                &&& f.ensures((d1, d2, d3, d4, d5, d6, d7, d8, d9, d10, d11, d12), r)
            },
{
    let ghost s1 = l1.guarded();
    let ghost s2 = l2.guarded();
    let ghost s3 = l3.guarded();
    let ghost s4 = l4.guarded();
    let ghost s5 = l5.guarded();
    let ghost s6 = l6.guarded();
    let ghost s7 = l7.guarded();
    let ghost s8 = l8.guarded();
    let ghost s9 = l9.guarded();
    let ghost s10 = l10.guarded();
    let ghost s11 = l11.guarded();
    let ghost s12 = l12.guarded();
    let rest = (l2, l3, l4, l5, l6, l7, l8, l9, l10, l11, l12);
    l1.lock(
        move |d1: &mut D1| -> (r: R)
            requires
                fits(s1, *d1),
                rest.0.guarded() == s2,
                rest.1.guarded() == s3,
                rest.2.guarded() == s4,
                rest.3.guarded() == s5,
                rest.4.guarded() == s6,
                rest.5.guarded() == s7,
                rest.6.guarded() == s8,
                rest.7.guarded() == s9,
                rest.8.guarded() == s10,
                rest.9.guarded() == s11,
                rest.10.guarded() == s12,
                accepts12::<D1, D2, D3, D4, D5, D6, D7, D8, D9, D10, D11, D12, R, F>(
                    f, s1, s2, s3, s4, s5, s6, s7, s8, s9, s10, s11, s12,
                ),
            ensures
                exists|
                    e1: &mut D1, e2: &mut D2, e3: &mut D3, e4: &mut D4, e5: &mut D5, e6: &mut D6,
                    e7: &mut D7, e8: &mut D8, e9: &mut D9, e10: &mut D10, e11: &mut D11,
                    e12: &mut D12,
                |
                    #![trigger f.ensures((e1, e2, e3, e4, e5, e6, e7, e8, e9, e10, e11, e12), r)]
                    {
                        &&& *e1 == *old(d1) && *final(e1) == *final(d1)
                        &&& fits(s2, *e2) && fits((*final(rest.0)).guarded(), *final(e2))
                        &&& fits(s3, *e3) && fits((*final(rest.1)).guarded(), *final(e3))
                        &&& fits(s4, *e4) && fits((*final(rest.2)).guarded(), *final(e4))
                        &&& fits(s5, *e5) && fits((*final(rest.3)).guarded(), *final(e5))
                        &&& fits(s6, *e6) && fits((*final(rest.4)).guarded(), *final(e6))
                        &&& fits(s7, *e7) && fits((*final(rest.5)).guarded(), *final(e7))
                        &&& fits(s8, *e8) && fits((*final(rest.6)).guarded(), *final(e8))
                        &&& fits(s9, *e9) && fits((*final(rest.7)).guarded(), *final(e9))
                        &&& fits(s10, *e10) && fits((*final(rest.8)).guarded(), *final(e10))
                        &&& fits(s11, *e11) && fits((*final(rest.9)).guarded(), *final(e11))
                        &&& fits(s12, *e12) && fits((*final(rest.10)).guarded(), *final(e12))
                        &&& f.ensures((e1, e2, e3, e4, e5, e6, e7, e8, e9, e10, e11, e12), r)
                    },
        {
            let (l2, l3, l4, l5, l6, l7, l8, l9, l10, l11, l12) = rest;
            let held = (d1,);
            lock_all11(
                l2,
                l3,
                l4,
                l5,
                l6,
                l7,
                l8,
                l9,
                l10,
                l11,
                l12,
                move |
                    d2: &mut D2, d3: &mut D3, d4: &mut D4, d5: &mut D5, d6: &mut D6, d7: &mut D7,
                    d8: &mut D8, d9: &mut D9, d10: &mut D10, d11: &mut D11, d12: &mut D12,
                | -> (r: R)
                    requires
                        fits(s2, *d2),
                        fits(s3, *d3),
                        fits(s4, *d4),
                        fits(s5, *d5),
                        fits(s6, *d6),
                        fits(s7, *d7),
                        fits(s8, *d8),
                        fits(s9, *d9),
                        fits(s10, *d10),
                        fits(s11, *d11),
                        fits(s12, *d12),
                        fits(s1, *held.0),
                        accepts12::<D1, D2, D3, D4, D5, D6, D7, D8, D9, D10, D11, D12, R, F>(
                            f, s1, s2, s3, s4, s5, s6, s7, s8, s9, s10, s11, s12,
                        ),
                    ensures
                        exists|
                            e1: &mut D1, e2: &mut D2, e3: &mut D3, e4: &mut D4, e5: &mut D5,
                            e6: &mut D6, e7: &mut D7, e8: &mut D8, e9: &mut D9, e10: &mut D10,
                            e11: &mut D11, e12: &mut D12,
                        |
                            #![trigger f.ensures((e1, e2, e3, e4, e5, e6, e7, e8, e9, e10, e11, e12), r)]
                            {
                                &&& *e1 == *held.0 && *final(e1) == *final(held.0)
                                &&& *e2 == *old(d2) && *final(e2) == *final(d2)
                                &&& *e3 == *old(d3) && *final(e3) == *final(d3)
                                &&& *e4 == *old(d4) && *final(e4) == *final(d4)
                                &&& *e5 == *old(d5) && *final(e5) == *final(d5)
                                &&& *e6 == *old(d6) && *final(e6) == *final(d6)
                                &&& *e7 == *old(d7) && *final(e7) == *final(d7)
                                &&& *e8 == *old(d8) && *final(e8) == *final(d8)
                                &&& *e9 == *old(d9) && *final(e9) == *final(d9)
                                &&& *e10 == *old(d10) && *final(e10) == *final(d10)
                                &&& *e11 == *old(d11) && *final(e11) == *final(d11)
                                &&& *e12 == *old(d12) && *final(e12) == *final(d12)
                                &&& f.ensures((e1, e2, e3, e4, e5, e6, e7, e8, e9, e10, e11, e12), r)
                            },
                {
                    let (h1,) = held;
                    f(h1, d2, d3, d4, d5, d6, d7, d8, d9, d10, d11, d12)
                }
            )
        }
    )
}

impl<
    D1, D2, D3, D4, D5, D6, D7, D8, D9, D10, D11, D12, T1, T2, T3, T4, T5, T6, T7, T8, T9, T10, T11,
    T12,
>
    TupleExt12<D1, D2, D3, D4, D5, D6, D7, D8, D9, D10, D11, D12> for (
        T1, T2, T3, T4, T5, T6, T7, T8, T9, T10, T11, T12,
    )
where
    T1: Mutex<D1>,
    T2: Mutex<D2>,
    T3: Mutex<D3>,
    T4: Mutex<D4>,
    T5: Mutex<D5>,
    T6: Mutex<D6>,
    T7: Mutex<D7>,
    T8: Mutex<D8>,
    T9: Mutex<D9>,
    T10: Mutex<D10>,
    T11: Mutex<D11>,
    T12: Mutex<D12>,
{
    open spec fn guarded(&self) -> (
        Option<D1>, Option<D2>, Option<D3>, Option<D4>, Option<D5>, Option<D6>, Option<D7>,
        Option<D8>, Option<D9>, Option<D10>, Option<D11>, Option<D12>,
    ) {
        (
            self.0.guarded(), self.1.guarded(), self.2.guarded(), self.3.guarded(),
            self.4.guarded(), self.5.guarded(), self.6.guarded(), self.7.guarded(),
            self.8.guarded(), self.9.guarded(), self.10.guarded(), self.11.guarded(),
        )
    }

    fn lock<R, F>(&mut self, f: F) -> (r: R) where
        F: FnOnce(
            &mut D1, &mut D2, &mut D3, &mut D4, &mut D5, &mut D6, &mut D7, &mut D8, &mut D9,
            &mut D10, &mut D11, &mut D12,
        ) -> R,
    {
        lock_all12(
            &mut self.0, &mut self.1, &mut self.2, &mut self.3, &mut self.4, &mut self.5,
            &mut self.6, &mut self.7, &mut self.8, &mut self.9, &mut self.10, &mut self.11, f,
        )
    }
}

/// `f` may be called on every 13 references whose current values fit `s1` to `s13`.
pub open spec fn accepts13<D1, D2, D3, D4, D5, D6, D7, D8, D9, D10, D11, D12, D13, R, F>(
    f: F,
    s1: Option<D1>,
    s2: Option<D2>,
    s3: Option<D3>,
    s4: Option<D4>,
    s5: Option<D5>,
    s6: Option<D6>,
    s7: Option<D7>,
    s8: Option<D8>,
    s9: Option<D9>,
    s10: Option<D10>,
    s11: Option<D11>,
    s12: Option<D12>,
    s13: Option<D13>,
) -> bool where
    F: FnOnce(
        &mut D1, &mut D2, &mut D3, &mut D4, &mut D5, &mut D6, &mut D7, &mut D8, &mut D9, &mut D10,
        &mut D11, &mut D12, &mut D13,
    ) -> R,
{
    forall|
        d1: &mut D1, d2: &mut D2, d3: &mut D3, d4: &mut D4, d5: &mut D5, d6: &mut D6, d7: &mut D7,
        d8: &mut D8, d9: &mut D9, d10: &mut D10, d11: &mut D11, d12: &mut D12, d13: &mut D13,
    |
        (
            {
                &&& fits(s1, *d1)
                &&& fits(s2, *d2)
                &&& fits(s3, *d3)
                &&& fits(s4, *d4)
                &&& fits(s5, *d5)
                &&& fits(s6, *d6)
                &&& fits(s7, *d7)
                &&& fits(s8, *d8)
                &&& fits(s9, *d9)
                &&& fits(s10, *d10)
                &&& fits(s11, *d11)
                &&& fits(s12, *d12)
                &&& fits(s13, *d13)
            }
        ) ==> #[trigger] f.requires((d1, d2, d3, d4, d5, d6, d7, d8, d9, d10, d11, d12, d13))
}

/// 13 locks taken together, left to right; see [`Mutex`].
pub trait TupleExt13<D1, D2, D3, D4, D5, D6, D7, D8, D9, D10, D11, D12, D13> {
    /// What the handles of the tuple show of their data, in order.
    spec fn guarded(&self) -> (
        Option<D1>, Option<D2>, Option<D3>, Option<D4>, Option<D5>, Option<D6>, Option<D7>,
        Option<D8>, Option<D9>, Option<D10>, Option<D11>, Option<D12>, Option<D13>,
    );

    /// Creates a critical section and grants temporary access to the protected data of
    /// every lock of the tuple: the locks are taken from left to right and released in
    /// the reverse order, and the closure runs once, inside all of them.
    fn lock<R, F>(&mut self, f: F) -> (r: R) where
        F: FnOnce(
            &mut D1, &mut D2, &mut D3, &mut D4, &mut D5, &mut D6, &mut D7, &mut D8, &mut D9,
            &mut D10, &mut D11, &mut D12, &mut D13,
        ) -> R,
        requires
            accepts13::<D1, D2, D3, D4, D5, D6, D7, D8, D9, D10, D11, D12, D13, R, F>(
                f, old(self).guarded().0, old(self).guarded().1, old(self).guarded().2,
                old(self).guarded().3, old(self).guarded().4, old(self).guarded().5,
                old(self).guarded().6, old(self).guarded().7, old(self).guarded().8,
                old(self).guarded().9, old(self).guarded().10, old(self).guarded().11,
                old(self).guarded().12,
            ),
        ensures
            exists|
                d1: &mut D1, d2: &mut D2, d3: &mut D3, d4: &mut D4, d5: &mut D5, d6: &mut D6,
                d7: &mut D7, d8: &mut D8, d9: &mut D9, d10: &mut D10, d11: &mut D11, d12: &mut D12,
                d13: &mut D13,
            |
                #![trigger f.ensures((d1, d2, d3, d4, d5, d6, d7, d8, d9, d10, d11, d12, d13), r)]
                {
                    &&& fits(old(self).guarded().0, *d1)
                    &&& fits(final(self).guarded().0, *final(d1))
                    &&& fits(old(self).guarded().1, *d2)
                    &&& fits(final(self).guarded().1, *final(d2))
                    &&& fits(old(self).guarded().2, *d3)
                    &&& fits(final(self).guarded().2, *final(d3))
                    &&& fits(old(self).guarded().3, *d4)
                    &&& fits(final(self).guarded().3, *final(d4))
                    &&& fits(old(self).guarded().4, *d5)
                    &&& fits(final(self).guarded().4, *final(d5))
                    &&& fits(old(self).guarded().5, *d6)
                    &&& fits(final(self).guarded().5, *final(d6))
                    &&& fits(old(self).guarded().6, *d7)
                    &&& fits(final(self).guarded().6, *final(d7))
                    &&& fits(old(self).guarded().7, *d8)
                    &&& fits(final(self).guarded().7, *final(d8))
                    &&& fits(old(self).guarded().8, *d9)
                    &&& fits(final(self).guarded().8, *final(d9))
                    &&& fits(old(self).guarded().9, *d10)
                    &&& fits(final(self).guarded().9, *final(d10))
                    &&& fits(old(self).guarded().10, *d11)
                    &&& fits(final(self).guarded().10, *final(d11))
                    &&& fits(old(self).guarded().11, *d12)
                    &&& fits(final(self).guarded().11, *final(d12))
                    &&& fits(old(self).guarded().12, *d13)
                    &&& fits(final(self).guarded().12, *final(d13))
                    &&& f.ensures((d1, d2, d3, d4, d5, d6, d7, d8, d9, d10, d11, d12, d13), r)
                },
    ;
}

/// Takes `l1` to `l13` from left to right, runs `f` on their data inside all of them, and
/// releases them in the reverse order.
fn lock_all13<
    D1, D2, D3, D4, D5, D6, D7, D8, D9, D10, D11, D12, D13, T1, T2, T3, T4, T5, T6, T7, T8, T9, T10,
    T11, T12, T13, R, F,
>(
    l1: &mut T1,
    l2: &mut T2,
    l3: &mut T3,
    l4: &mut T4,
    l5: &mut T5,
    l6: &mut T6,
    l7: &mut T7,
    l8: &mut T8,
    l9: &mut T9,
    l10: &mut T10,
    l11: &mut T11,
    l12: &mut T12,
    l13: &mut T13,
    f: F,
) -> (r: R) where
    T1: Mutex<D1>,
    T2: Mutex<D2>,
    T3: Mutex<D3>,
    T4: Mutex<D4>,
    T5: Mutex<D5>,
    T6: Mutex<D6>,
    T7: Mutex<D7>,
    T8: Mutex<D8>,
    T9: Mutex<D9>,
    T10: Mutex<D10>,
    T11: Mutex<D11>,
    T12: Mutex<D12>,
    T13: Mutex<D13>,
    F: FnOnce(
        &mut D1, &mut D2, &mut D3, &mut D4, &mut D5, &mut D6, &mut D7, &mut D8, &mut D9, &mut D10,
        &mut D11, &mut D12, &mut D13,
    ) -> R,
    requires
        accepts13::<D1, D2, D3, D4, D5, D6, D7, D8, D9, D10, D11, D12, D13, R, F>(
            f, (*old(l1)).guarded(), (*old(l2)).guarded(), (*old(l3)).guarded(),
            (*old(l4)).guarded(), (*old(l5)).guarded(), (*old(l6)).guarded(), (*old(l7)).guarded(),
            (*old(l8)).guarded(), (*old(l9)).guarded(), (*old(l10)).guarded(),
            (*old(l11)).guarded(), (*old(l12)).guarded(), (*old(l13)).guarded(),
        ),
    ensures
        exists|
            d1: &mut D1, d2: &mut D2, d3: &mut D3, d4: &mut D4, d5: &mut D5, d6: &mut D6,
            d7: &mut D7, d8: &mut D8, d9: &mut D9, d10: &mut D10, d11: &mut D11, d12: &mut D12,
            d13: &mut D13,
        |
            #![trigger f.ensures((d1, d2, d3, d4, d5, d6, d7, d8, d9, d10, d11, d12, d13), r)]
            {
                &&& fits((*old(l1)).guarded(), *d1) && fits((*final(l1)).guarded(), *final(d1))
                &&& fits((*old(l2)).guarded(), *d2) && fits((*final(l2)).guarded(), *final(d2))
                &&& fits((*old(l3)).guarded(), *d3) && fits((*final(l3)).guarded(), *final(d3))
                &&& fits((*old(l4)).guarded(), *d4) && fits((*final(l4)).guarded(), *final(d4))
                &&& fits((*old(l5)).guarded(), *d5) && fits((*final(l5)).guarded(), *final(d5))
                &&& fits((*old(l6)).guarded(), *d6) && fits((*final(l6)).guarded(), *final(d6))
                &&& fits((*old(l7)).guarded(), *d7) && fits((*final(l7)).guarded(), *final(d7))
                &&& fits((*old(l8)).guarded(), *d8) && fits((*final(l8)).guarded(), *final(d8))
                &&& fits((*old(l9)).guarded(), *d9) && fits((*final(l9)).guarded(), *final(d9))
                &&& fits((*old(l10)).guarded(), *d10) && fits((*final(l10)).guarded(), *final(d10))
                &&& fits((*old(l11)).guarded(), *d11) && fits((*final(l11)).guarded(), *final(d11))
                &&& fits((*old(l12)).guarded(), *d12) && fits((*final(l12)).guarded(), *final(d12))
                &&& fits((*old(l13)).guarded(), *d13) && fits((*final(l13)).guarded(), *final(d13))
                &&& f.ensures((d1, d2, d3, d4, d5, d6, d7, d8, d9, d10, d11, d12, d13), r)
            },
{
    let ghost s1 = l1.guarded();
    let ghost s2 = l2.guarded();
    let ghost s3 = l3.guarded();
    let ghost s4 = l4.guarded();
    let ghost s5 = l5.guarded();
    let ghost s6 = l6.guarded();
    let ghost s7 = l7.guarded();
    let ghost s8 = l8.guarded();
    let ghost s9 = l9.guarded();
    let ghost s10 = l10.guarded();
    let ghost s11 = l11.guarded();
    let ghost s12 = l12.guarded();
    let ghost s13 = l13.guarded();
    let rest = (l2, l3, l4, l5, l6, l7, l8, l9, l10, l11, l12, l13);
    l1.lock(
        move |d1: &mut D1| -> (r: R)
            requires
                fits(s1, *d1),
                rest.0.guarded() == s2,
                rest.1.guarded() == s3,
                rest.2.guarded() == s4,
                rest.3.guarded() == s5,
                rest.4.guarded() == s6,
                rest.5.guarded() == s7,
                rest.6.guarded() == s8,
                rest.7.guarded() == s9,
                rest.8.guarded() == s10,
                rest.9.guarded() == s11,
                rest.10.guarded() == s12,
                rest.11.guarded() == s13,
                accepts13::<D1, D2, D3, D4, D5, D6, D7, D8, D9, D10, D11, D12, D13, R, F>(
                    f, s1, s2, s3, s4, s5, s6, s7, s8, s9, s10, s11, s12, s13,
                ),
            ensures
                exists|
                    e1: &mut D1, e2: &mut D2, e3: &mut D3, e4: &mut D4, e5: &mut D5, e6: &mut D6,
                    e7: &mut D7, e8: &mut D8, e9: &mut D9, e10: &mut D10, e11: &mut D11,
                    e12: &mut D12, e13: &mut D13,
                |
                    #![trigger f.ensures((e1, e2, e3, e4, e5, e6, e7, e8, e9, e10, e11, e12, e13), r)]
                    {
                        &&& *e1 == *old(d1) && *final(e1) == *final(d1)
                        &&& fits(s2, *e2) && fits((*final(rest.0)).guarded(), *final(e2))
                        &&& fits(s3, *e3) && fits((*final(rest.1)).guarded(), *final(e3))
                        &&& fits(s4, *e4) && fits((*final(rest.2)).guarded(), *final(e4))
                        &&& fits(s5, *e5) && fits((*final(rest.3)).guarded(), *final(e5))
                        &&& fits(s6, *e6) && fits((*final(rest.4)).guarded(), *final(e6))
                        &&& fits(s7, *e7) && fits((*final(rest.5)).guarded(), *final(e7))
                        &&& fits(s8, *e8) && fits((*final(rest.6)).guarded(), *final(e8))
                        &&& fits(s9, *e9) && fits((*final(rest.7)).guarded(), *final(e9))
                        &&& fits(s10, *e10) && fits((*final(rest.8)).guarded(), *final(e10))
                        &&& fits(s11, *e11) && fits((*final(rest.9)).guarded(), *final(e11))
                        &&& fits(s12, *e12) && fits((*final(rest.10)).guarded(), *final(e12))
                        &&& fits(s13, *e13) && fits((*final(rest.11)).guarded(), *final(e13))
                        &&& f.ensures((e1, e2, e3, e4, e5, e6, e7, e8, e9, e10, e11, e12, e13), r)
                    },
        {
            let (l2, l3, l4, l5, l6, l7, l8, l9, l10, l11, l12, l13) = rest;
            let held = (d1,);
            lock_all12(
                l2,
                l3,
                l4,
                l5,
                l6,
                l7,
                l8,
                l9,
                l10,
                l11,
                l12,
                l13,
                move |
                    d2: &mut D2, d3: &mut D3, d4: &mut D4, d5: &mut D5, d6: &mut D6, d7: &mut D7,
                    d8: &mut D8, d9: &mut D9, d10: &mut D10, d11: &mut D11, d12: &mut D12,
                    d13: &mut D13,
                | -> (r: R)
                    requires
                        fits(s2, *d2),
                        fits(s3, *d3),
                        fits(s4, *d4),
                        fits(s5, *d5),
                        fits(s6, *d6),
                        fits(s7, *d7),
                        fits(s8, *d8),
                        fits(s9, *d9),
                        fits(s10, *d10),
                        fits(s11, *d11),
                        fits(s12, *d12),
                        fits(s13, *d13),
                        fits(s1, *held.0),
                        accepts13::<D1, D2, D3, D4, D5, D6, D7, D8, D9, D10, D11, D12, D13, R, F>(
                            f, s1, s2, s3, s4, s5, s6, s7, s8, s9, s10, s11, s12, s13,
                        ),
                    ensures
                        exists|
                            e1: &mut D1, e2: &mut D2, e3: &mut D3, e4: &mut D4, e5: &mut D5,
                            e6: &mut D6, e7: &mut D7, e8: &mut D8, e9: &mut D9, e10: &mut D10,
                            e11: &mut D11, e12: &mut D12, e13: &mut D13,
                        |
                            #![trigger f.ensures((e1, e2, e3, e4, e5, e6, e7, e8, e9, e10, e11, e12, e13), r)]
                            {
                                &&& *e1 == *held.0 && *final(e1) == *final(held.0)
                                &&& *e2 == *old(d2) && *final(e2) == *final(d2)
                                &&& *e3 == *old(d3) && *final(e3) == *final(d3)
                                &&& *e4 == *old(d4) && *final(e4) == *final(d4)
                                &&& *e5 == *old(d5) && *final(e5) == *final(d5)
                                &&& *e6 == *old(d6) && *final(e6) == *final(d6)
                                &&& *e7 == *old(d7) && *final(e7) == *final(d7)
                                &&& *e8 == *old(d8) && *final(e8) == *final(d8)
                                &&& *e9 == *old(d9) && *final(e9) == *final(d9)
                                &&& *e10 == *old(d10) && *final(e10) == *final(d10)
                                &&& *e11 == *old(d11) && *final(e11) == *final(d11)
                                &&& *e12 == *old(d12) && *final(e12) == *final(d12)
                                &&& *e13 == *old(d13) && *final(e13) == *final(d13)
                                &&& f.ensures((e1, e2, e3, e4, e5, e6, e7, e8, e9, e10, e11, e12, e13), r)
                            },
                {
                    let (h1,) = held;
                    f(h1, d2, d3, d4, d5, d6, d7, d8, d9, d10, d11, d12, d13)
                }
            )
        }
    )
}

impl<
    D1, D2, D3, D4, D5, D6, D7, D8, D9, D10, D11, D12, D13, T1, T2, T3, T4, T5, T6, T7, T8, T9, T10,
    T11, T12, T13,
>
    TupleExt13<D1, D2, D3, D4, D5, D6, D7, D8, D9, D10, D11, D12, D13> for (
        T1, T2, T3, T4, T5, T6, T7, T8, T9, T10, T11, T12, T13,
    )
where
    T1: Mutex<D1>,
    T2: Mutex<D2>,
    T3: Mutex<D3>,
    T4: Mutex<D4>,
    T5: Mutex<D5>,
    T6: Mutex<D6>,
    T7: Mutex<D7>,
    T8: Mutex<D8>,
    T9: Mutex<D9>,
    T10: Mutex<D10>,
    T11: Mutex<D11>,
    T12: Mutex<D12>,
    T13: Mutex<D13>,
{
    open spec fn guarded(&self) -> (
        Option<D1>, Option<D2>, Option<D3>, Option<D4>, Option<D5>, Option<D6>, Option<D7>,
        Option<D8>, Option<D9>, Option<D10>, Option<D11>, Option<D12>, Option<D13>,
    ) {
        (
            self.0.guarded(), self.1.guarded(), self.2.guarded(), self.3.guarded(),
            self.4.guarded(), self.5.guarded(), self.6.guarded(), self.7.guarded(),
            self.8.guarded(), self.9.guarded(), self.10.guarded(), self.11.guarded(),
            self.12.guarded(),
        )
    }

    fn lock<R, F>(&mut self, f: F) -> (r: R) where
        F: FnOnce(
            &mut D1, &mut D2, &mut D3, &mut D4, &mut D5, &mut D6, &mut D7, &mut D8, &mut D9,
            &mut D10, &mut D11, &mut D12, &mut D13,
        ) -> R,
    {
        lock_all13(
            &mut self.0, &mut self.1, &mut self.2, &mut self.3, &mut self.4, &mut self.5,
            &mut self.6, &mut self.7, &mut self.8, &mut self.9, &mut self.10, &mut self.11,
            &mut self.12, f,
        )
    }
}

/// `f` may be called on every 14 references whose current values fit `s1` to `s14`.
pub open spec fn accepts14<D1, D2, D3, D4, D5, D6, D7, D8, D9, D10, D11, D12, D13, D14, R, F>(
    f: F,
    s1: Option<D1>,
    s2: Option<D2>,
    s3: Option<D3>,
    s4: Option<D4>,
    s5: Option<D5>,
    s6: Option<D6>,
    s7: Option<D7>,
    s8: Option<D8>,
    s9: Option<D9>,
    s10: Option<D10>,
    s11: Option<D11>,
    s12: Option<D12>,
    s13: Option<D13>,
    s14: Option<D14>,
) -> bool where
    F: FnOnce(
        &mut D1, &mut D2, &mut D3, &mut D4, &mut D5, &mut D6, &mut D7, &mut D8, &mut D9, &mut D10,
        &mut D11, &mut D12, &mut D13, &mut D14,
    ) -> R,
{
    forall|
        d1: &mut D1, d2: &mut D2, d3: &mut D3, d4: &mut D4, d5: &mut D5, d6: &mut D6, d7: &mut D7,
        d8: &mut D8, d9: &mut D9, d10: &mut D10, d11: &mut D11, d12: &mut D12, d13: &mut D13,
        d14: &mut D14,
    |
        (
            {
                &&& fits(s1, *d1)
                &&& fits(s2, *d2)
                &&& fits(s3, *d3)
                &&& fits(s4, *d4)
                &&& fits(s5, *d5)
                &&& fits(s6, *d6)
                &&& fits(s7, *d7)
                &&& fits(s8, *d8)
                &&& fits(s9, *d9)
                &&& fits(s10, *d10)
                &&& fits(s11, *d11)
                &&& fits(s12, *d12)
                &&& fits(s13, *d13)
                &&& fits(s14, *d14)
            }
        ) ==> #[trigger] f.requires((d1, d2, d3, d4, d5, d6, d7, d8, d9, d10, d11, d12, d13, d14))
}

/// 14 locks taken together, left to right; see [`Mutex`].
pub trait TupleExt14<D1, D2, D3, D4, D5, D6, D7, D8, D9, D10, D11, D12, D13, D14> {
    /// What the handles of the tuple show of their data, in order.
    spec fn guarded(&self) -> (
        Option<D1>, Option<D2>, Option<D3>, Option<D4>, Option<D5>, Option<D6>, Option<D7>,
        Option<D8>, Option<D9>, Option<D10>, Option<D11>, Option<D12>, Option<D13>, Option<D14>,
    );

    /// Creates a critical section and grants temporary access to the protected data of
    /// every lock of the tuple: the locks are taken from left to right and released in
    /// the reverse order, and the closure runs once, inside all of them.
    fn lock<R, F>(&mut self, f: F) -> (r: R) where
        F: FnOnce(
            &mut D1, &mut D2, &mut D3, &mut D4, &mut D5, &mut D6, &mut D7, &mut D8, &mut D9,
            &mut D10, &mut D11, &mut D12, &mut D13, &mut D14,
        ) -> R,
        requires
            accepts14::<D1, D2, D3, D4, D5, D6, D7, D8, D9, D10, D11, D12, D13, D14, R, F>(
                f, old(self).guarded().0, old(self).guarded().1, old(self).guarded().2,
                old(self).guarded().3, old(self).guarded().4, old(self).guarded().5,
                old(self).guarded().6, old(self).guarded().7, old(self).guarded().8,
                old(self).guarded().9, old(self).guarded().10, old(self).guarded().11,
                old(self).guarded().12, old(self).guarded().13,
            ),
        ensures
            exists|
                d1: &mut D1, d2: &mut D2, d3: &mut D3, d4: &mut D4, d5: &mut D5, d6: &mut D6,
                d7: &mut D7, d8: &mut D8, d9: &mut D9, d10: &mut D10, d11: &mut D11, d12: &mut D12,
                d13: &mut D13, d14: &mut D14,
            |
                #![trigger f.ensures((d1, d2, d3, d4, d5, d6, d7, d8, d9, d10, d11, d12, d13, d14), r)]
                {
                    &&& fits(old(self).guarded().0, *d1)
                    &&& fits(final(self).guarded().0, *final(d1))
                    &&& fits(old(self).guarded().1, *d2)
                    &&& fits(final(self).guarded().1, *final(d2))
                    &&& fits(old(self).guarded().2, *d3)
                    &&& fits(final(self).guarded().2, *final(d3))
                    &&& fits(old(self).guarded().3, *d4)
                    &&& fits(final(self).guarded().3, *final(d4))
                    &&& fits(old(self).guarded().4, *d5)
                    &&& fits(final(self).guarded().4, *final(d5))
                    &&& fits(old(self).guarded().5, *d6)
                    &&& fits(final(self).guarded().5, *final(d6))
                    &&& fits(old(self).guarded().6, *d7)
                    &&& fits(final(self).guarded().6, *final(d7))
                    &&& fits(old(self).guarded().7, *d8)
                    &&& fits(final(self).guarded().7, *final(d8))
                    &&& fits(old(self).guarded().8, *d9)
                    &&& fits(final(self).guarded().8, *final(d9))
                    &&& fits(old(self).guarded().9, *d10)
                    &&& fits(final(self).guarded().9, *final(d10))
                    &&& fits(old(self).guarded().10, *d11)
                    &&& fits(final(self).guarded().10, *final(d11))
                    &&& fits(old(self).guarded().11, *d12)
                    &&& fits(final(self).guarded().11, *final(d12))
                    &&& fits(old(self).guarded().12, *d13)
                    &&& fits(final(self).guarded().12, *final(d13))
                    &&& fits(old(self).guarded().13, *d14)
                    &&& fits(final(self).guarded().13, *final(d14))
                    &&& f.ensures((d1, d2, d3, d4, d5, d6, d7, d8, d9, d10, d11, d12, d13, d14), r)
                },
    ;
}

/// Takes `l1` to `l14` from left to right, runs `f` on their data inside all of them, and
/// releases them in the reverse order.
fn lock_all14<
    D1, D2, D3, D4, D5, D6, D7, D8, D9, D10, D11, D12, D13, D14, T1, T2, T3, T4, T5, T6, T7, T8, T9,
    T10, T11, T12, T13, T14, R, F,
>(
    l1: &mut T1,
    l2: &mut T2,
    l3: &mut T3,
    l4: &mut T4,
    l5: &mut T5,
    l6: &mut T6,
    l7: &mut T7,
    l8: &mut T8,
    l9: &mut T9,
    l10: &mut T10,
    l11: &mut T11,
    l12: &mut T12,
    l13: &mut T13,
    l14: &mut T14,
    f: F,
) -> (r: R) where
    T1: Mutex<D1>,
    T2: Mutex<D2>,
    T3: Mutex<D3>,
    T4: Mutex<D4>,
    T5: Mutex<D5>,
    T6: Mutex<D6>,
    T7: Mutex<D7>,
    T8: Mutex<D8>,
    T9: Mutex<D9>,
    T10: Mutex<D10>,
    T11: Mutex<D11>,
    T12: Mutex<D12>,
    T13: Mutex<D13>,
    T14: Mutex<D14>,
    F: FnOnce(
        &mut D1, &mut D2, &mut D3, &mut D4, &mut D5, &mut D6, &mut D7, &mut D8, &mut D9, &mut D10,
        &mut D11, &mut D12, &mut D13, &mut D14,
    ) -> R,
    requires
        accepts14::<D1, D2, D3, D4, D5, D6, D7, D8, D9, D10, D11, D12, D13, D14, R, F>(
            f, (*old(l1)).guarded(), (*old(l2)).guarded(), (*old(l3)).guarded(),
            (*old(l4)).guarded(), (*old(l5)).guarded(), (*old(l6)).guarded(), (*old(l7)).guarded(),
            (*old(l8)).guarded(), (*old(l9)).guarded(), (*old(l10)).guarded(),
            (*old(l11)).guarded(), (*old(l12)).guarded(), (*old(l13)).guarded(),
            (*old(l14)).guarded(),
        ),
    ensures
        exists|
            d1: &mut D1, d2: &mut D2, d3: &mut D3, d4: &mut D4, d5: &mut D5, d6: &mut D6,
            d7: &mut D7, d8: &mut D8, d9: &mut D9, d10: &mut D10, d11: &mut D11, d12: &mut D12,
            d13: &mut D13, d14: &mut D14,
        |
            #![trigger f.ensures((d1, d2, d3, d4, d5, d6, d7, d8, d9, d10, d11, d12, d13, d14), r)]
            {
                &&& fits((*old(l1)).guarded(), *d1) && fits((*final(l1)).guarded(), *final(d1))
                &&& fits((*old(l2)).guarded(), *d2) && fits((*final(l2)).guarded(), *final(d2))
                &&& fits((*old(l3)).guarded(), *d3) && fits((*final(l3)).guarded(), *final(d3))
                &&& fits((*old(l4)).guarded(), *d4) && fits((*final(l4)).guarded(), *final(d4))
                &&& fits((*old(l5)).guarded(), *d5) && fits((*final(l5)).guarded(), *final(d5))
                &&& fits((*old(l6)).guarded(), *d6) && fits((*final(l6)).guarded(), *final(d6))
                &&& fits((*old(l7)).guarded(), *d7) && fits((*final(l7)).guarded(), *final(d7))
                &&& fits((*old(l8)).guarded(), *d8) && fits((*final(l8)).guarded(), *final(d8))
                &&& fits((*old(l9)).guarded(), *d9) && fits((*final(l9)).guarded(), *final(d9))
                &&& fits((*old(l10)).guarded(), *d10) && fits((*final(l10)).guarded(), *final(d10))
                &&& fits((*old(l11)).guarded(), *d11) && fits((*final(l11)).guarded(), *final(d11))
                &&& fits((*old(l12)).guarded(), *d12) && fits((*final(l12)).guarded(), *final(d12))
                &&& fits((*old(l13)).guarded(), *d13) && fits((*final(l13)).guarded(), *final(d13))
                &&& fits((*old(l14)).guarded(), *d14) && fits((*final(l14)).guarded(), *final(d14))
                &&& f.ensures((d1, d2, d3, d4, d5, d6, d7, d8, d9, d10, d11, d12, d13, d14), r)
            },
{
    let ghost s1 = l1.guarded();
    let ghost s2 = l2.guarded();
    let ghost s3 = l3.guarded();
    let ghost s4 = l4.guarded();
    let ghost s5 = l5.guarded();
    let ghost s6 = l6.guarded();
    let ghost s7 = l7.guarded();
    let ghost s8 = l8.guarded();
    let ghost s9 = l9.guarded();
    let ghost s10 = l10.guarded();
    let ghost s11 = l11.guarded();
    let ghost s12 = l12.guarded();
    let ghost s13 = l13.guarded();
    let ghost s14 = l14.guarded();
    let rest = (l2, l3, l4, l5, l6, l7, l8, l9, l10, l11, l12, l13, l14);
    l1.lock(
        move |d1: &mut D1| -> (r: R)
            requires
                fits(s1, *d1),
                rest.0.guarded() == s2,
                rest.1.guarded() == s3,
                rest.2.guarded() == s4,
                rest.3.guarded() == s5,
                rest.4.guarded() == s6,
                rest.5.guarded() == s7,
                rest.6.guarded() == s8,
                rest.7.guarded() == s9,
                rest.8.guarded() == s10,
                rest.9.guarded() == s11,
                rest.10.guarded() == s12,
                rest.11.guarded() == s13,
                rest.12.guarded() == s14,
                accepts14::<D1, D2, D3, D4, D5, D6, D7, D8, D9, D10, D11, D12, D13, D14, R, F>(
                    f, s1, s2, s3, s4, s5, s6, s7, s8, s9, s10, s11, s12, s13, s14,
                ),
            ensures
                exists|
                    e1: &mut D1, e2: &mut D2, e3: &mut D3, e4: &mut D4, e5: &mut D5, e6: &mut D6,
                    e7: &mut D7, e8: &mut D8, e9: &mut D9, e10: &mut D10, e11: &mut D11,
                    e12: &mut D12, e13: &mut D13, e14: &mut D14,
                |
                    #![trigger f.ensures((e1, e2, e3, e4, e5, e6, e7, e8, e9, e10, e11, e12, e13, e14), r)]
                    {
                        &&& *e1 == *old(d1) && *final(e1) == *final(d1)
                        &&& fits(s2, *e2) && fits((*final(rest.0)).guarded(), *final(e2))
                        &&& fits(s3, *e3) && fits((*final(rest.1)).guarded(), *final(e3))
                        &&& fits(s4, *e4) && fits((*final(rest.2)).guarded(), *final(e4))
                        &&& fits(s5, *e5) && fits((*final(rest.3)).guarded(), *final(e5))
                        &&& fits(s6, *e6) && fits((*final(rest.4)).guarded(), *final(e6))
                        &&& fits(s7, *e7) && fits((*final(rest.5)).guarded(), *final(e7))
                        &&& fits(s8, *e8) && fits((*final(rest.6)).guarded(), *final(e8))
                        &&& fits(s9, *e9) && fits((*final(rest.7)).guarded(), *final(e9))
                        &&& fits(s10, *e10) && fits((*final(rest.8)).guarded(), *final(e10))
                        &&& fits(s11, *e11) && fits((*final(rest.9)).guarded(), *final(e11))
                        &&& fits(s12, *e12) && fits((*final(rest.10)).guarded(), *final(e12))
                        &&& fits(s13, *e13) && fits((*final(rest.11)).guarded(), *final(e13))
                        &&& fits(s14, *e14) && fits((*final(rest.12)).guarded(), *final(e14))
                        &&& f.ensures((e1, e2, e3, e4, e5, e6, e7, e8, e9, e10, e11, e12, e13, e14), r)
                    },
        {
            let (l2, l3, l4, l5, l6, l7, l8, l9, l10, l11, l12, l13, l14) = rest;
            let held = (d1,);
            lock_all13(
                l2,
                l3,
                l4,
                l5,
                l6,
                l7,
                l8,
                l9,
                l10,
                l11,
                l12,
                l13,
                l14,
                move |
                    d2: &mut D2, d3: &mut D3, d4: &mut D4, d5: &mut D5, d6: &mut D6, d7: &mut D7,
                    d8: &mut D8, d9: &mut D9, d10: &mut D10, d11: &mut D11, d12: &mut D12,
                    d13: &mut D13, d14: &mut D14,
                | -> (r: R)
                    requires
                        fits(s2, *d2),
                        fits(s3, *d3),
                        fits(s4, *d4),
                        fits(s5, *d5),
                        fits(s6, *d6),
                        fits(s7, *d7),
                        fits(s8, *d8),
                        fits(s9, *d9),
                        fits(s10, *d10),
                        fits(s11, *d11),
                        fits(s12, *d12),
                        fits(s13, *d13),
                        fits(s14, *d14),
                        fits(s1, *held.0),
                        accepts14::<D1, D2, D3, D4, D5, D6, D7, D8, D9, D10, D11, D12, D13, D14, R, F>(
                            f, s1, s2, s3, s4, s5, s6, s7, s8, s9, s10, s11, s12, s13, s14,
                        ),
                    ensures
                        exists|
                            e1: &mut D1, e2: &mut D2, e3: &mut D3, e4: &mut D4, e5: &mut D5,
                            e6: &mut D6, e7: &mut D7, e8: &mut D8, e9: &mut D9, e10: &mut D10,
                            e11: &mut D11, e12: &mut D12, e13: &mut D13, e14: &mut D14,
                        |
                            #![trigger f.ensures((e1, e2, e3, e4, e5, e6, e7, e8, e9, e10, e11, e12, e13, e14), r)]
                            {
                                &&& *e1 == *held.0 && *final(e1) == *final(held.0)
                                &&& *e2 == *old(d2) && *final(e2) == *final(d2)
                                &&& *e3 == *old(d3) && *final(e3) == *final(d3)
                                &&& *e4 == *old(d4) && *final(e4) == *final(d4)
                                &&& *e5 == *old(d5) && *final(e5) == *final(d5)
                                &&& *e6 == *old(d6) && *final(e6) == *final(d6)
                                &&& *e7 == *old(d7) && *final(e7) == *final(d7)
                                &&& *e8 == *old(d8) && *final(e8) == *final(d8)
                                &&& *e9 == *old(d9) && *final(e9) == *final(d9)
                                &&& *e10 == *old(d10) && *final(e10) == *final(d10)
                                &&& *e11 == *old(d11) && *final(e11) == *final(d11)
                                &&& *e12 == *old(d12) && *final(e12) == *final(d12)
                                &&& *e13 == *old(d13) && *final(e13) == *final(d13)
                                &&& *e14 == *old(d14) && *final(e14) == *final(d14)
                                &&& f.ensures((e1, e2, e3, e4, e5, e6, e7, e8, e9, e10, e11, e12, e13, e14), r)
                            },
                {
                    let (h1,) = held;
                    f(h1, d2, d3, d4, d5, d6, d7, d8, d9, d10, d11, d12, d13, d14)
                }
            )
        }
    )
}

impl<
    D1, D2, D3, D4, D5, D6, D7, D8, D9, D10, D11, D12, D13, D14, T1, T2, T3, T4, T5, T6, T7, T8, T9,
    T10, T11, T12, T13, T14,
>
    TupleExt14<D1, D2, D3, D4, D5, D6, D7, D8, D9, D10, D11, D12, D13, D14> for (
        T1, T2, T3, T4, T5, T6, T7, T8, T9, T10, T11, T12, T13, T14,
    )
where
    T1: Mutex<D1>,
    T2: Mutex<D2>,
    T3: Mutex<D3>,
    T4: Mutex<D4>,
    T5: Mutex<D5>,
    T6: Mutex<D6>,
    T7: Mutex<D7>,
    T8: Mutex<D8>,
    T9: Mutex<D9>,
    T10: Mutex<D10>,
    T11: Mutex<D11>,
    T12: Mutex<D12>,
    T13: Mutex<D13>,
    T14: Mutex<D14>,
{
    open spec fn guarded(&self) -> (
        Option<D1>, Option<D2>, Option<D3>, Option<D4>, Option<D5>, Option<D6>, Option<D7>,
        Option<D8>, Option<D9>, Option<D10>, Option<D11>, Option<D12>, Option<D13>, Option<D14>,
    ) {
        (
            self.0.guarded(), self.1.guarded(), self.2.guarded(), self.3.guarded(),
            self.4.guarded(), self.5.guarded(), self.6.guarded(), self.7.guarded(),
            self.8.guarded(), self.9.guarded(), self.10.guarded(), self.11.guarded(),
            self.12.guarded(), self.13.guarded(),
        )
    }

    fn lock<R, F>(&mut self, f: F) -> (r: R) where
        F: FnOnce(
            &mut D1, &mut D2, &mut D3, &mut D4, &mut D5, &mut D6, &mut D7, &mut D8, &mut D9,
            &mut D10, &mut D11, &mut D12, &mut D13, &mut D14,
        ) -> R,
    {
        lock_all14(
            &mut self.0, &mut self.1, &mut self.2, &mut self.3, &mut self.4, &mut self.5,
            &mut self.6, &mut self.7, &mut self.8, &mut self.9, &mut self.10, &mut self.11,
            &mut self.12, &mut self.13, f,
        )
    }
}

/// `f` may be called on every 15 references whose current values fit `s1` to `s15`.
pub open spec fn accepts15<D1, D2, D3, D4, D5, D6, D7, D8, D9, D10, D11, D12, D13, D14, D15, R, F>(
    f: F,
    s1: Option<D1>,
    s2: Option<D2>,
    s3: Option<D3>,
    s4: Option<D4>,
    s5: Option<D5>,
    s6: Option<D6>,
    s7: Option<D7>,
    s8: Option<D8>,
    s9: Option<D9>,
    s10: Option<D10>,
    s11: Option<D11>,
    s12: Option<D12>,
    s13: Option<D13>,
    s14: Option<D14>,
    s15: Option<D15>,
) -> bool where
    F: FnOnce(
        &mut D1, &mut D2, &mut D3, &mut D4, &mut D5, &mut D6, &mut D7, &mut D8, &mut D9, &mut D10,
        &mut D11, &mut D12, &mut D13, &mut D14, &mut D15,
    ) -> R,
{
    forall|
        d1: &mut D1, d2: &mut D2, d3: &mut D3, d4: &mut D4, d5: &mut D5, d6: &mut D6, d7: &mut D7,
        d8: &mut D8, d9: &mut D9, d10: &mut D10, d11: &mut D11, d12: &mut D12, d13: &mut D13,
        d14: &mut D14, d15: &mut D15,
    |
        (
            {
                &&& fits(s1, *d1)
                &&& fits(s2, *d2)
                &&& fits(s3, *d3)
                &&& fits(s4, *d4)
                &&& fits(s5, *d5)
                &&& fits(s6, *d6)
                &&& fits(s7, *d7)
                &&& fits(s8, *d8)
                &&& fits(s9, *d9)
                &&& fits(s10, *d10)
                &&& fits(s11, *d11)
                &&& fits(s12, *d12)
                &&& fits(s13, *d13)
                &&& fits(s14, *d14)
                &&& fits(s15, *d15)
            }
        ) ==> #[trigger] f.requires((d1, d2, d3, d4, d5, d6, d7, d8, d9, d10, d11, d12, d13, d14, d15))
}

/// 15 locks taken together, left to right; see [`Mutex`].
pub trait TupleExt15<D1, D2, D3, D4, D5, D6, D7, D8, D9, D10, D11, D12, D13, D14, D15> {
    /// What the handles of the tuple show of their data, in order.
    spec fn guarded(&self) -> (
        Option<D1>, Option<D2>, Option<D3>, Option<D4>, Option<D5>, Option<D6>, Option<D7>,
        Option<D8>, Option<D9>, Option<D10>, Option<D11>, Option<D12>, Option<D13>, Option<D14>,
        Option<D15>,
    );

    /// Creates a critical section and grants temporary access to the protected data of
    /// every lock of the tuple: the locks are taken from left to right and released in
    /// the reverse order, and the closure runs once, inside all of them.
    fn lock<R, F>(&mut self, f: F) -> (r: R) where
        F: FnOnce(
            &mut D1, &mut D2, &mut D3, &mut D4, &mut D5, &mut D6, &mut D7, &mut D8, &mut D9,
            &mut D10, &mut D11, &mut D12, &mut D13, &mut D14, &mut D15,
        ) -> R,
        requires
            accepts15::<D1, D2, D3, D4, D5, D6, D7, D8, D9, D10, D11, D12, D13, D14, D15, R, F>(
                f, old(self).guarded().0, old(self).guarded().1, old(self).guarded().2,
                old(self).guarded().3, old(self).guarded().4, old(self).guarded().5,
                old(self).guarded().6, old(self).guarded().7, old(self).guarded().8,
                old(self).guarded().9, old(self).guarded().10, old(self).guarded().11,
                old(self).guarded().12, old(self).guarded().13, old(self).guarded().14,
            ),
        ensures
            exists|
                d1: &mut D1, d2: &mut D2, d3: &mut D3, d4: &mut D4, d5: &mut D5, d6: &mut D6,
                d7: &mut D7, d8: &mut D8, d9: &mut D9, d10: &mut D10, d11: &mut D11, d12: &mut D12,
                d13: &mut D13, d14: &mut D14, d15: &mut D15,
            |
                #![trigger f.ensures((d1, d2, d3, d4, d5, d6, d7, d8, d9, d10, d11, d12, d13, d14, d15), r)]
                {
                    &&& fits(old(self).guarded().0, *d1)
                    &&& fits(final(self).guarded().0, *final(d1))
                    &&& fits(old(self).guarded().1, *d2)
                    &&& fits(final(self).guarded().1, *final(d2))
                    &&& fits(old(self).guarded().2, *d3)
                    &&& fits(final(self).guarded().2, *final(d3))
                    &&& fits(old(self).guarded().3, *d4)
                    &&& fits(final(self).guarded().3, *final(d4))
                    &&& fits(old(self).guarded().4, *d5)
                    &&& fits(final(self).guarded().4, *final(d5))
                    &&& fits(old(self).guarded().5, *d6)
                    &&& fits(final(self).guarded().5, *final(d6))
                    &&& fits(old(self).guarded().6, *d7)
                    &&& fits(final(self).guarded().6, *final(d7))
                    &&& fits(old(self).guarded().7, *d8)
                    &&& fits(final(self).guarded().7, *final(d8))
                    &&& fits(old(self).guarded().8, *d9)
                    &&& fits(final(self).guarded().8, *final(d9))
                    &&& fits(old(self).guarded().9, *d10)
                    &&& fits(final(self).guarded().9, *final(d10))
                    &&& fits(old(self).guarded().10, *d11)
                    &&& fits(final(self).guarded().10, *final(d11))
                    &&& fits(old(self).guarded().11, *d12)
                    &&& fits(final(self).guarded().11, *final(d12))
                    &&& fits(old(self).guarded().12, *d13)
                    &&& fits(final(self).guarded().12, *final(d13))
                    &&& fits(old(self).guarded().13, *d14)
                    &&& fits(final(self).guarded().13, *final(d14))
                    &&& fits(old(self).guarded().14, *d15)
                    &&& fits(final(self).guarded().14, *final(d15))
                    &&& f.ensures((d1, d2, d3, d4, d5, d6, d7, d8, d9, d10, d11, d12, d13, d14, d15), r)
                },
    ;
}

/// Takes `l1` to `l15` from left to right, runs `f` on their data inside all of them, and
/// releases them in the reverse order.
fn lock_all15<
    D1, D2, D3, D4, D5, D6, D7, D8, D9, D10, D11, D12, D13, D14, D15, T1, T2, T3, T4, T5, T6, T7,
    T8, T9, T10, T11, T12, T13, T14, T15, R, F,
>(
    l1: &mut T1,
    l2: &mut T2,
    l3: &mut T3,
    l4: &mut T4,
    l5: &mut T5,
    l6: &mut T6,
    l7: &mut T7,
    l8: &mut T8,
    l9: &mut T9,
    l10: &mut T10,
    l11: &mut T11,
    l12: &mut T12,
    l13: &mut T13,
    l14: &mut T14,
    l15: &mut T15,
    f: F,
) -> (r: R) where
    T1: Mutex<D1>,
    T2: Mutex<D2>,
    T3: Mutex<D3>,
    T4: Mutex<D4>,
    T5: Mutex<D5>,
    T6: Mutex<D6>,
    T7: Mutex<D7>,
    T8: Mutex<D8>,
    T9: Mutex<D9>,
    T10: Mutex<D10>,
    T11: Mutex<D11>,
    T12: Mutex<D12>,
    T13: Mutex<D13>,
    T14: Mutex<D14>,
    T15: Mutex<D15>,
    F: FnOnce(
        &mut D1, &mut D2, &mut D3, &mut D4, &mut D5, &mut D6, &mut D7, &mut D8, &mut D9, &mut D10,
        &mut D11, &mut D12, &mut D13, &mut D14, &mut D15,
    ) -> R,
    requires
        accepts15::<D1, D2, D3, D4, D5, D6, D7, D8, D9, D10, D11, D12, D13, D14, D15, R, F>(
            f, (*old(l1)).guarded(), (*old(l2)).guarded(), (*old(l3)).guarded(),
            (*old(l4)).guarded(), (*old(l5)).guarded(), (*old(l6)).guarded(), (*old(l7)).guarded(),
            (*old(l8)).guarded(), (*old(l9)).guarded(), (*old(l10)).guarded(),
            (*old(l11)).guarded(), (*old(l12)).guarded(), (*old(l13)).guarded(),
            (*old(l14)).guarded(), (*old(l15)).guarded(),
        ),
    ensures
        exists|
            d1: &mut D1, d2: &mut D2, d3: &mut D3, d4: &mut D4, d5: &mut D5, d6: &mut D6,
            d7: &mut D7, d8: &mut D8, d9: &mut D9, d10: &mut D10, d11: &mut D11, d12: &mut D12,
            d13: &mut D13, d14: &mut D14, d15: &mut D15,
        |
            #![trigger f.ensures((d1, d2, d3, d4, d5, d6, d7, d8, d9, d10, d11, d12, d13, d14, d15), r)]
            {
                &&& fits((*old(l1)).guarded(), *d1) && fits((*final(l1)).guarded(), *final(d1))
                &&& fits((*old(l2)).guarded(), *d2) && fits((*final(l2)).guarded(), *final(d2))
                &&& fits((*old(l3)).guarded(), *d3) && fits((*final(l3)).guarded(), *final(d3))
                &&& fits((*old(l4)).guarded(), *d4) && fits((*final(l4)).guarded(), *final(d4))
                &&& fits((*old(l5)).guarded(), *d5) && fits((*final(l5)).guarded(), *final(d5))
                &&& fits((*old(l6)).guarded(), *d6) && fits((*final(l6)).guarded(), *final(d6))
                &&& fits((*old(l7)).guarded(), *d7) && fits((*final(l7)).guarded(), *final(d7))
                &&& fits((*old(l8)).guarded(), *d8) && fits((*final(l8)).guarded(), *final(d8))
                &&& fits((*old(l9)).guarded(), *d9) && fits((*final(l9)).guarded(), *final(d9))
                &&& fits((*old(l10)).guarded(), *d10) && fits((*final(l10)).guarded(), *final(d10))
                &&& fits((*old(l11)).guarded(), *d11) && fits((*final(l11)).guarded(), *final(d11))
                &&& fits((*old(l12)).guarded(), *d12) && fits((*final(l12)).guarded(), *final(d12))
                &&& fits((*old(l13)).guarded(), *d13) && fits((*final(l13)).guarded(), *final(d13))
                &&& fits((*old(l14)).guarded(), *d14) && fits((*final(l14)).guarded(), *final(d14))
                &&& fits((*old(l15)).guarded(), *d15) && fits((*final(l15)).guarded(), *final(d15))
                &&& f.ensures((d1, d2, d3, d4, d5, d6, d7, d8, d9, d10, d11, d12, d13, d14, d15), r)
            },
{
    let ghost s1 = l1.guarded();
    let ghost s2 = l2.guarded();
    let ghost s3 = l3.guarded();
    let ghost s4 = l4.guarded();
    let ghost s5 = l5.guarded();
    let ghost s6 = l6.guarded();
    let ghost s7 = l7.guarded();
    let ghost s8 = l8.guarded();
    let ghost s9 = l9.guarded();
    let ghost s10 = l10.guarded();
    let ghost s11 = l11.guarded();
    let ghost s12 = l12.guarded();
    let ghost s13 = l13.guarded();
    let ghost s14 = l14.guarded();
    let ghost s15 = l15.guarded();
    let rest = (l2, l3, l4, l5, l6, l7, l8, l9, l10, l11, l12, l13, l14, l15);
    l1.lock(
        move |d1: &mut D1| -> (r: R)
            requires
                fits(s1, *d1),
                rest.0.guarded() == s2,
                rest.1.guarded() == s3,
                rest.2.guarded() == s4,
                rest.3.guarded() == s5,
                rest.4.guarded() == s6,
                rest.5.guarded() == s7,
                rest.6.guarded() == s8,
                rest.7.guarded() == s9,
                rest.8.guarded() == s10,
                rest.9.guarded() == s11,
                rest.10.guarded() == s12,
                rest.11.guarded() == s13,
                rest.12.guarded() == s14,
                rest.13.guarded() == s15,
                accepts15::<D1, D2, D3, D4, D5, D6, D7, D8, D9, D10, D11, D12, D13, D14, D15, R, F>(
                    f, s1, s2, s3, s4, s5, s6, s7, s8, s9, s10, s11, s12, s13, s14, s15,
                ),
            ensures
                exists|
                    e1: &mut D1, e2: &mut D2, e3: &mut D3, e4: &mut D4, e5: &mut D5, e6: &mut D6,
                    e7: &mut D7, e8: &mut D8, e9: &mut D9, e10: &mut D10, e11: &mut D11,
                    e12: &mut D12, e13: &mut D13, e14: &mut D14, e15: &mut D15,
                |
                    #![trigger f.ensures((e1, e2, e3, e4, e5, e6, e7, e8, e9, e10, e11, e12, e13, e14, e15), r)]
                    {
                        &&& *e1 == *old(d1) && *final(e1) == *final(d1)
                        &&& fits(s2, *e2) && fits((*final(rest.0)).guarded(), *final(e2))
                        &&& fits(s3, *e3) && fits((*final(rest.1)).guarded(), *final(e3))
                        &&& fits(s4, *e4) && fits((*final(rest.2)).guarded(), *final(e4))
                        &&& fits(s5, *e5) && fits((*final(rest.3)).guarded(), *final(e5))
                        &&& fits(s6, *e6) && fits((*final(rest.4)).guarded(), *final(e6))
                        &&& fits(s7, *e7) && fits((*final(rest.5)).guarded(), *final(e7))
                        &&& fits(s8, *e8) && fits((*final(rest.6)).guarded(), *final(e8))
                        &&& fits(s9, *e9) && fits((*final(rest.7)).guarded(), *final(e9))
                        &&& fits(s10, *e10) && fits((*final(rest.8)).guarded(), *final(e10))
                        &&& fits(s11, *e11) && fits((*final(rest.9)).guarded(), *final(e11))
                        &&& fits(s12, *e12) && fits((*final(rest.10)).guarded(), *final(e12))
                        &&& fits(s13, *e13) && fits((*final(rest.11)).guarded(), *final(e13))
                        &&& fits(s14, *e14) && fits((*final(rest.12)).guarded(), *final(e14))
                        &&& fits(s15, *e15) && fits((*final(rest.13)).guarded(), *final(e15))
                        &&& f.ensures((e1, e2, e3, e4, e5, e6, e7, e8, e9, e10, e11, e12, e13, e14, e15), r)
                    },
        {
            let (l2, l3, l4, l5, l6, l7, l8, l9, l10, l11, l12, l13, l14, l15) = rest;
            let held = (d1,);
            lock_all14(
                l2,
                l3,
                l4,
                l5,
                l6,
                l7,
                l8,
                l9,
                l10,
                l11,
                l12,
                l13,
                l14,
                l15,
                move |
                    d2: &mut D2, d3: &mut D3, d4: &mut D4, d5: &mut D5, d6: &mut D6, d7: &mut D7,
                    d8: &mut D8, d9: &mut D9, d10: &mut D10, d11: &mut D11, d12: &mut D12,
                    d13: &mut D13, d14: &mut D14, d15: &mut D15,
                | -> (r: R)
                    requires
                        fits(s2, *d2),
                        fits(s3, *d3),
                        fits(s4, *d4),
                        fits(s5, *d5),
                        fits(s6, *d6),
                        fits(s7, *d7),
                        fits(s8, *d8),
                        fits(s9, *d9),
                        fits(s10, *d10),
                        fits(s11, *d11),
                        fits(s12, *d12),
                        fits(s13, *d13),
                        fits(s14, *d14),
                        fits(s15, *d15),
                        fits(s1, *held.0),
                        accepts15::<D1, D2, D3, D4, D5, D6, D7, D8, D9, D10, D11, D12, D13, D14, D15, R, F>(
                            f, s1, s2, s3, s4, s5, s6, s7, s8, s9, s10, s11, s12, s13, s14, s15,
                        ),
                    ensures
                        exists|
                            e1: &mut D1, e2: &mut D2, e3: &mut D3, e4: &mut D4, e5: &mut D5,
                            e6: &mut D6, e7: &mut D7, e8: &mut D8, e9: &mut D9, e10: &mut D10,
                            e11: &mut D11, e12: &mut D12, e13: &mut D13, e14: &mut D14,
                            e15: &mut D15,
                        |
                            #![trigger f.ensures((e1, e2, e3, e4, e5, e6, e7, e8, e9, e10, e11, e12, e13, e14, e15), r)]
                            {
                                &&& *e1 == *held.0 && *final(e1) == *final(held.0)
                                &&& *e2 == *old(d2) && *final(e2) == *final(d2)
                                &&& *e3 == *old(d3) && *final(e3) == *final(d3)
                                &&& *e4 == *old(d4) && *final(e4) == *final(d4)
                                &&& *e5 == *old(d5) && *final(e5) == *final(d5)
                                &&& *e6 == *old(d6) && *final(e6) == *final(d6)
                                &&& *e7 == *old(d7) && *final(e7) == *final(d7)
                                &&& *e8 == *old(d8) && *final(e8) == *final(d8)
                                &&& *e9 == *old(d9) && *final(e9) == *final(d9)
                                &&& *e10 == *old(d10) && *final(e10) == *final(d10)
                                &&& *e11 == *old(d11) && *final(e11) == *final(d11)
                                &&& *e12 == *old(d12) && *final(e12) == *final(d12)
                                &&& *e13 == *old(d13) && *final(e13) == *final(d13)
                                &&& *e14 == *old(d14) && *final(e14) == *final(d14)
                                &&& *e15 == *old(d15) && *final(e15) == *final(d15)
                                &&& f.ensures((e1, e2, e3, e4, e5, e6, e7, e8, e9, e10, e11, e12, e13, e14, e15), r)
                            },
                {
                    let (h1,) = held;
                    f(h1, d2, d3, d4, d5, d6, d7, d8, d9, d10, d11, d12, d13, d14, d15)
                }
            )
        }
    )
}

impl<
    D1, D2, D3, D4, D5, D6, D7, D8, D9, D10, D11, D12, D13, D14, D15, T1, T2, T3, T4, T5, T6, T7,
    T8, T9, T10, T11, T12, T13, T14, T15,
>
    TupleExt15<D1, D2, D3, D4, D5, D6, D7, D8, D9, D10, D11, D12, D13, D14, D15> for (
        T1, T2, T3, T4, T5, T6, T7, T8, T9, T10, T11, T12, T13, T14, T15,
    )
where
    T1: Mutex<D1>,
    T2: Mutex<D2>,
    T3: Mutex<D3>,
    T4: Mutex<D4>,
    T5: Mutex<D5>,
    T6: Mutex<D6>,
    T7: Mutex<D7>,
    T8: Mutex<D8>,
    T9: Mutex<D9>,
    T10: Mutex<D10>,
    T11: Mutex<D11>,
    T12: Mutex<D12>,
    T13: Mutex<D13>,
    T14: Mutex<D14>,
    T15: Mutex<D15>,
{
    open spec fn guarded(&self) -> (
        Option<D1>, Option<D2>, Option<D3>, Option<D4>, Option<D5>, Option<D6>, Option<D7>,
        Option<D8>, Option<D9>, Option<D10>, Option<D11>, Option<D12>, Option<D13>, Option<D14>,
        Option<D15>,
    ) {
        (
            self.0.guarded(), self.1.guarded(), self.2.guarded(), self.3.guarded(),
            self.4.guarded(), self.5.guarded(), self.6.guarded(), self.7.guarded(),
            self.8.guarded(), self.9.guarded(), self.10.guarded(), self.11.guarded(),
            self.12.guarded(), self.13.guarded(), self.14.guarded(),
        )
    }

    fn lock<R, F>(&mut self, f: F) -> (r: R) where
        F: FnOnce(
            &mut D1, &mut D2, &mut D3, &mut D4, &mut D5, &mut D6, &mut D7, &mut D8, &mut D9,
            &mut D10, &mut D11, &mut D12, &mut D13, &mut D14, &mut D15,
        ) -> R,
    {
        lock_all15(
            &mut self.0, &mut self.1, &mut self.2, &mut self.3, &mut self.4, &mut self.5,
            &mut self.6, &mut self.7, &mut self.8, &mut self.9, &mut self.10, &mut self.11,
            &mut self.12, &mut self.13, &mut self.14, f,
        )
    }
}

/// `f` may be called on every 16 references whose current values fit `s1` to `s16`.
pub open spec fn accepts16<D1, D2, D3, D4, D5, D6, D7, D8, D9, D10, D11, D12, D13, D14, D15, D16, R, F>(
    f: F,
    s1: Option<D1>,
    s2: Option<D2>,
    s3: Option<D3>,
    s4: Option<D4>,
    s5: Option<D5>,
    s6: Option<D6>,
    s7: Option<D7>,
    s8: Option<D8>,
    s9: Option<D9>,
    s10: Option<D10>,
    s11: Option<D11>,
    s12: Option<D12>,
    s13: Option<D13>,
    s14: Option<D14>,
    s15: Option<D15>,
    s16: Option<D16>,
) -> bool where
    F: FnOnce(
        &mut D1, &mut D2, &mut D3, &mut D4, &mut D5, &mut D6, &mut D7, &mut D8, &mut D9, &mut D10,
        &mut D11, &mut D12, &mut D13, &mut D14, &mut D15, &mut D16,
    ) -> R,
{
    forall|
        d1: &mut D1, d2: &mut D2, d3: &mut D3, d4: &mut D4, d5: &mut D5, d6: &mut D6, d7: &mut D7,
        d8: &mut D8, d9: &mut D9, d10: &mut D10, d11: &mut D11, d12: &mut D12, d13: &mut D13,
        d14: &mut D14, d15: &mut D15, d16: &mut D16,
    |
        (
            {
                &&& fits(s1, *d1)
                &&& fits(s2, *d2)
                &&& fits(s3, *d3)
                &&& fits(s4, *d4)
                &&& fits(s5, *d5)
                &&& fits(s6, *d6)
                &&& fits(s7, *d7)
                &&& fits(s8, *d8)
                &&& fits(s9, *d9)
                &&& fits(s10, *d10)
                &&& fits(s11, *d11)
                &&& fits(s12, *d12)
                &&& fits(s13, *d13)
                &&& fits(s14, *d14)
                &&& fits(s15, *d15)
                &&& fits(s16, *d16)
            }
        ) ==> #[trigger] f.requires((d1, d2, d3, d4, d5, d6, d7, d8, d9, d10, d11, d12, d13, d14, d15, d16))
}

/// 16 locks taken together, left to right; see [`Mutex`].
pub trait TupleExt16<D1, D2, D3, D4, D5, D6, D7, D8, D9, D10, D11, D12, D13, D14, D15, D16> {
    /// What the handles of the tuple show of their data, in order.
    spec fn guarded(&self) -> (
        Option<D1>, Option<D2>, Option<D3>, Option<D4>, Option<D5>, Option<D6>, Option<D7>,
        Option<D8>, Option<D9>, Option<D10>, Option<D11>, Option<D12>, Option<D13>, Option<D14>,
        Option<D15>, Option<D16>,
    );

    /// Creates a critical section and grants temporary access to the protected data of
    /// every lock of the tuple: the locks are taken from left to right and released in
    /// the reverse order, and the closure runs once, inside all of them.
    fn lock<R, F>(&mut self, f: F) -> (r: R) where
        F: FnOnce(
            &mut D1, &mut D2, &mut D3, &mut D4, &mut D5, &mut D6, &mut D7, &mut D8, &mut D9,
            &mut D10, &mut D11, &mut D12, &mut D13, &mut D14, &mut D15, &mut D16,
        ) -> R,
        requires
            accepts16::<D1, D2, D3, D4, D5, D6, D7, D8, D9, D10, D11, D12, D13, D14, D15, D16, R, F>(
                f, old(self).guarded().0, old(self).guarded().1, old(self).guarded().2,
                old(self).guarded().3, old(self).guarded().4, old(self).guarded().5,
                old(self).guarded().6, old(self).guarded().7, old(self).guarded().8,
                old(self).guarded().9, old(self).guarded().10, old(self).guarded().11,
                old(self).guarded().12, old(self).guarded().13, old(self).guarded().14,
                old(self).guarded().15,
            ),
        ensures
            exists|
                d1: &mut D1, d2: &mut D2, d3: &mut D3, d4: &mut D4, d5: &mut D5, d6: &mut D6,
                d7: &mut D7, d8: &mut D8, d9: &mut D9, d10: &mut D10, d11: &mut D11, d12: &mut D12,
                d13: &mut D13, d14: &mut D14, d15: &mut D15, d16: &mut D16,
            |
                #![trigger f.ensures((d1, d2, d3, d4, d5, d6, d7, d8, d9, d10, d11, d12, d13, d14, d15, d16), r)]
                {
                    &&& fits(old(self).guarded().0, *d1)
                    &&& fits(final(self).guarded().0, *final(d1))
                    &&& fits(old(self).guarded().1, *d2)
                    &&& fits(final(self).guarded().1, *final(d2))
                    &&& fits(old(self).guarded().2, *d3)
                    &&& fits(final(self).guarded().2, *final(d3))
                    &&& fits(old(self).guarded().3, *d4)
                    &&& fits(final(self).guarded().3, *final(d4))
                    &&& fits(old(self).guarded().4, *d5)
                    &&& fits(final(self).guarded().4, *final(d5))
                    &&& fits(old(self).guarded().5, *d6)
                    &&& fits(final(self).guarded().5, *final(d6))
                    &&& fits(old(self).guarded().6, *d7)
                    &&& fits(final(self).guarded().6, *final(d7))
                    &&& fits(old(self).guarded().7, *d8)
                    &&& fits(final(self).guarded().7, *final(d8))
                    &&& fits(old(self).guarded().8, *d9)
                    &&& fits(final(self).guarded().8, *final(d9))
                    &&& fits(old(self).guarded().9, *d10)
                    &&& fits(final(self).guarded().9, *final(d10))
                    &&& fits(old(self).guarded().10, *d11)
                    &&& fits(final(self).guarded().10, *final(d11))
                    &&& fits(old(self).guarded().11, *d12)
                    &&& fits(final(self).guarded().11, *final(d12))
                    &&& fits(old(self).guarded().12, *d13)
                    &&& fits(final(self).guarded().12, *final(d13))
                    &&& fits(old(self).guarded().13, *d14)
                    &&& fits(final(self).guarded().13, *final(d14))
                    &&& fits(old(self).guarded().14, *d15)
                    &&& fits(final(self).guarded().14, *final(d15))
                    &&& fits(old(self).guarded().15, *d16)
                    &&& fits(final(self).guarded().15, *final(d16))
                    &&& f.ensures((d1, d2, d3, d4, d5, d6, d7, d8, d9, d10, d11, d12, d13, d14, d15, d16), r)
                },
    ;
}

/// Takes `l1` to `l16` from left to right, runs `f` on their data inside all of them, and
/// releases them in the reverse order.
fn lock_all16<
    D1, D2, D3, D4, D5, D6, D7, D8, D9, D10, D11, D12, D13, D14, D15, D16, T1, T2, T3, T4, T5, T6,
    T7, T8, T9, T10, T11, T12, T13, T14, T15, T16, R, F,
>(
    l1: &mut T1,
    l2: &mut T2,
    l3: &mut T3,
    l4: &mut T4,
    l5: &mut T5,
    l6: &mut T6,
    l7: &mut T7,
    l8: &mut T8,
    l9: &mut T9,
    l10: &mut T10,
    l11: &mut T11,
    l12: &mut T12,
    l13: &mut T13,
    l14: &mut T14,
    l15: &mut T15,
    l16: &mut T16,
    f: F,
) -> (r: R) where
    T1: Mutex<D1>,
    T2: Mutex<D2>,
    T3: Mutex<D3>,
    T4: Mutex<D4>,
    T5: Mutex<D5>,
    T6: Mutex<D6>,
    T7: Mutex<D7>,
    T8: Mutex<D8>,
    T9: Mutex<D9>,
    T10: Mutex<D10>,
    T11: Mutex<D11>,
    T12: Mutex<D12>,
    T13: Mutex<D13>,
    T14: Mutex<D14>,
    T15: Mutex<D15>,
    T16: Mutex<D16>,
    F: FnOnce(
        &mut D1, &mut D2, &mut D3, &mut D4, &mut D5, &mut D6, &mut D7, &mut D8, &mut D9, &mut D10,
        &mut D11, &mut D12, &mut D13, &mut D14, &mut D15, &mut D16,
    ) -> R,
    requires
        accepts16::<D1, D2, D3, D4, D5, D6, D7, D8, D9, D10, D11, D12, D13, D14, D15, D16, R, F>(
            f, (*old(l1)).guarded(), (*old(l2)).guarded(), (*old(l3)).guarded(),
            (*old(l4)).guarded(), (*old(l5)).guarded(), (*old(l6)).guarded(), (*old(l7)).guarded(),
            (*old(l8)).guarded(), (*old(l9)).guarded(), (*old(l10)).guarded(),
            (*old(l11)).guarded(), (*old(l12)).guarded(), (*old(l13)).guarded(),
            (*old(l14)).guarded(), (*old(l15)).guarded(), (*old(l16)).guarded(),
        ),
    ensures
        exists|
            d1: &mut D1, d2: &mut D2, d3: &mut D3, d4: &mut D4, d5: &mut D5, d6: &mut D6,
            d7: &mut D7, d8: &mut D8, d9: &mut D9, d10: &mut D10, d11: &mut D11, d12: &mut D12,
            d13: &mut D13, d14: &mut D14, d15: &mut D15, d16: &mut D16,
        |
            #![trigger f.ensures((d1, d2, d3, d4, d5, d6, d7, d8, d9, d10, d11, d12, d13, d14, d15, d16), r)]
            {
                &&& fits((*old(l1)).guarded(), *d1) && fits((*final(l1)).guarded(), *final(d1))
                &&& fits((*old(l2)).guarded(), *d2) && fits((*final(l2)).guarded(), *final(d2))
                &&& fits((*old(l3)).guarded(), *d3) && fits((*final(l3)).guarded(), *final(d3))
                &&& fits((*old(l4)).guarded(), *d4) && fits((*final(l4)).guarded(), *final(d4))
                &&& fits((*old(l5)).guarded(), *d5) && fits((*final(l5)).guarded(), *final(d5))
                &&& fits((*old(l6)).guarded(), *d6) && fits((*final(l6)).guarded(), *final(d6))
                &&& fits((*old(l7)).guarded(), *d7) && fits((*final(l7)).guarded(), *final(d7))
                &&& fits((*old(l8)).guarded(), *d8) && fits((*final(l8)).guarded(), *final(d8))
                &&& fits((*old(l9)).guarded(), *d9) && fits((*final(l9)).guarded(), *final(d9))
                &&& fits((*old(l10)).guarded(), *d10) && fits((*final(l10)).guarded(), *final(d10))
                &&& fits((*old(l11)).guarded(), *d11) && fits((*final(l11)).guarded(), *final(d11))
                &&& fits((*old(l12)).guarded(), *d12) && fits((*final(l12)).guarded(), *final(d12))
                &&& fits((*old(l13)).guarded(), *d13) && fits((*final(l13)).guarded(), *final(d13))
                &&& fits((*old(l14)).guarded(), *d14) && fits((*final(l14)).guarded(), *final(d14))
                &&& fits((*old(l15)).guarded(), *d15) && fits((*final(l15)).guarded(), *final(d15))
                &&& fits((*old(l16)).guarded(), *d16) && fits((*final(l16)).guarded(), *final(d16))
                &&& f.ensures((d1, d2, d3, d4, d5, d6, d7, d8, d9, d10, d11, d12, d13, d14, d15, d16), r)
            },
{
    let ghost s1 = l1.guarded();
    let ghost s2 = l2.guarded();
    let ghost s3 = l3.guarded();
    let ghost s4 = l4.guarded();
    let ghost s5 = l5.guarded();
    let ghost s6 = l6.guarded();
    let ghost s7 = l7.guarded();
    let ghost s8 = l8.guarded();
    let ghost s9 = l9.guarded();
    let ghost s10 = l10.guarded();
    let ghost s11 = l11.guarded();
    let ghost s12 = l12.guarded();
    let ghost s13 = l13.guarded();
    let ghost s14 = l14.guarded();
    let ghost s15 = l15.guarded();
    let ghost s16 = l16.guarded();
    let rest = (l2, l3, l4, l5, l6, l7, l8, l9, l10, l11, l12, l13, l14, l15, l16);
    l1.lock(
        move |d1: &mut D1| -> (r: R)
            requires
                fits(s1, *d1),
                rest.0.guarded() == s2,
                rest.1.guarded() == s3,
                rest.2.guarded() == s4,
                rest.3.guarded() == s5,
                rest.4.guarded() == s6,
                rest.5.guarded() == s7,
                rest.6.guarded() == s8,
                rest.7.guarded() == s9,
                rest.8.guarded() == s10,
                rest.9.guarded() == s11,
                rest.10.guarded() == s12,
                rest.11.guarded() == s13,
                rest.12.guarded() == s14,
                rest.13.guarded() == s15,
                rest.14.guarded() == s16,
                accepts16::<D1, D2, D3, D4, D5, D6, D7, D8, D9, D10, D11, D12, D13, D14, D15, D16, R, F>(
                    f, s1, s2, s3, s4, s5, s6, s7, s8, s9, s10, s11, s12, s13, s14, s15, s16,
                ),
            ensures
                exists|
                    e1: &mut D1, e2: &mut D2, e3: &mut D3, e4: &mut D4, e5: &mut D5, e6: &mut D6,
                    e7: &mut D7, e8: &mut D8, e9: &mut D9, e10: &mut D10, e11: &mut D11,
                    e12: &mut D12, e13: &mut D13, e14: &mut D14, e15: &mut D15, e16: &mut D16,
                |
                    #![trigger f.ensures((e1, e2, e3, e4, e5, e6, e7, e8, e9, e10, e11, e12, e13, e14, e15, e16), r)]
                    {
                        &&& *e1 == *old(d1) && *final(e1) == *final(d1)
                        &&& fits(s2, *e2) && fits((*final(rest.0)).guarded(), *final(e2))
                        &&& fits(s3, *e3) && fits((*final(rest.1)).guarded(), *final(e3))
                        &&& fits(s4, *e4) && fits((*final(rest.2)).guarded(), *final(e4))
                        &&& fits(s5, *e5) && fits((*final(rest.3)).guarded(), *final(e5))
                        &&& fits(s6, *e6) && fits((*final(rest.4)).guarded(), *final(e6))
                        &&& fits(s7, *e7) && fits((*final(rest.5)).guarded(), *final(e7))
                        &&& fits(s8, *e8) && fits((*final(rest.6)).guarded(), *final(e8))
                        &&& fits(s9, *e9) && fits((*final(rest.7)).guarded(), *final(e9))
                        &&& fits(s10, *e10) && fits((*final(rest.8)).guarded(), *final(e10))
                        &&& fits(s11, *e11) && fits((*final(rest.9)).guarded(), *final(e11))
                        &&& fits(s12, *e12) && fits((*final(rest.10)).guarded(), *final(e12))
                        &&& fits(s13, *e13) && fits((*final(rest.11)).guarded(), *final(e13))
                        &&& fits(s14, *e14) && fits((*final(rest.12)).guarded(), *final(e14))
                        &&& fits(s15, *e15) && fits((*final(rest.13)).guarded(), *final(e15))
                        &&& fits(s16, *e16) && fits((*final(rest.14)).guarded(), *final(e16))
                        &&& f.ensures((e1, e2, e3, e4, e5, e6, e7, e8, e9, e10, e11, e12, e13, e14, e15, e16), r)
                    },
        {
            let (l2, l3, l4, l5, l6, l7, l8, l9, l10, l11, l12, l13, l14, l15, l16) = rest;
            let held = (d1,);
            lock_all15(
                l2,
                l3,
                l4,
                l5,
                l6,
                l7,
                l8,
                l9,
                l10,
                l11,
                l12,
                l13,
                l14,
                l15,
                l16,
                move |
                    d2: &mut D2, d3: &mut D3, d4: &mut D4, d5: &mut D5, d6: &mut D6, d7: &mut D7,
                    d8: &mut D8, d9: &mut D9, d10: &mut D10, d11: &mut D11, d12: &mut D12,
                    d13: &mut D13, d14: &mut D14, d15: &mut D15, d16: &mut D16,
                | -> (r: R)
                    requires
                        fits(s2, *d2),
                        fits(s3, *d3),
                        fits(s4, *d4),
                        fits(s5, *d5),
                        fits(s6, *d6),
                        fits(s7, *d7),
                        fits(s8, *d8),
                        fits(s9, *d9),
                        fits(s10, *d10),
                        fits(s11, *d11),
                        fits(s12, *d12),
                        fits(s13, *d13),
                        fits(s14, *d14),
                        fits(s15, *d15),
                        fits(s16, *d16),
                        fits(s1, *held.0),
                        accepts16::<D1, D2, D3, D4, D5, D6, D7, D8, D9, D10, D11, D12, D13, D14, D15, D16, R, F>(
                            f, s1, s2, s3, s4, s5, s6, s7, s8, s9, s10, s11, s12, s13, s14, s15,
                            s16,
                        ),
                    ensures
                        exists|
                            e1: &mut D1, e2: &mut D2, e3: &mut D3, e4: &mut D4, e5: &mut D5,
                            e6: &mut D6, e7: &mut D7, e8: &mut D8, e9: &mut D9, e10: &mut D10,
                            e11: &mut D11, e12: &mut D12, e13: &mut D13, e14: &mut D14,
                            e15: &mut D15, e16: &mut D16,
                        |
                            #![trigger f.ensures((e1, e2, e3, e4, e5, e6, e7, e8, e9, e10, e11, e12, e13, e14, e15, e16), r)]
                            {
                                &&& *e1 == *held.0 && *final(e1) == *final(held.0)
                                &&& *e2 == *old(d2) && *final(e2) == *final(d2)
                                &&& *e3 == *old(d3) && *final(e3) == *final(d3)
                                &&& *e4 == *old(d4) && *final(e4) == *final(d4)
                                &&& *e5 == *old(d5) && *final(e5) == *final(d5)
                                &&& *e6 == *old(d6) && *final(e6) == *final(d6)
                                &&& *e7 == *old(d7) && *final(e7) == *final(d7)
                                &&& *e8 == *old(d8) && *final(e8) == *final(d8)
                                &&& *e9 == *old(d9) && *final(e9) == *final(d9)
                                &&& *e10 == *old(d10) && *final(e10) == *final(d10)
                                &&& *e11 == *old(d11) && *final(e11) == *final(d11)
                                &&& *e12 == *old(d12) && *final(e12) == *final(d12)
                                &&& *e13 == *old(d13) && *final(e13) == *final(d13)
                                &&& *e14 == *old(d14) && *final(e14) == *final(d14)
                                &&& *e15 == *old(d15) && *final(e15) == *final(d15)
                                &&& *e16 == *old(d16) && *final(e16) == *final(d16)
                                &&& f.ensures((e1, e2, e3, e4, e5, e6, e7, e8, e9, e10, e11, e12, e13, e14, e15, e16), r)
                            },
                {
                    let (h1,) = held;
                    f(h1, d2, d3, d4, d5, d6, d7, d8, d9, d10, d11, d12, d13, d14, d15, d16)
                }
            )
        }
    )
}

impl<
    D1, D2, D3, D4, D5, D6, D7, D8, D9, D10, D11, D12, D13, D14, D15, D16, T1, T2, T3, T4, T5, T6,
    T7, T8, T9, T10, T11, T12, T13, T14, T15, T16,
>
    TupleExt16<D1, D2, D3, D4, D5, D6, D7, D8, D9, D10, D11, D12, D13, D14, D15, D16> for (
        T1, T2, T3, T4, T5, T6, T7, T8, T9, T10, T11, T12, T13, T14, T15, T16,
    )
where
    T1: Mutex<D1>,
    T2: Mutex<D2>,
    T3: Mutex<D3>,
    T4: Mutex<D4>,
    T5: Mutex<D5>,
    T6: Mutex<D6>,
    T7: Mutex<D7>,
    T8: Mutex<D8>,
    T9: Mutex<D9>,
    T10: Mutex<D10>,
    T11: Mutex<D11>,
    T12: Mutex<D12>,
    T13: Mutex<D13>,
    T14: Mutex<D14>,
    T15: Mutex<D15>,
    T16: Mutex<D16>,
{
    open spec fn guarded(&self) -> (
        Option<D1>, Option<D2>, Option<D3>, Option<D4>, Option<D5>, Option<D6>, Option<D7>,
        Option<D8>, Option<D9>, Option<D10>, Option<D11>, Option<D12>, Option<D13>, Option<D14>,
        Option<D15>, Option<D16>,
    ) {
        (
            self.0.guarded(), self.1.guarded(), self.2.guarded(), self.3.guarded(),
            self.4.guarded(), self.5.guarded(), self.6.guarded(), self.7.guarded(),
            self.8.guarded(), self.9.guarded(), self.10.guarded(), self.11.guarded(),
            self.12.guarded(), self.13.guarded(), self.14.guarded(), self.15.guarded(),
        )
    }

    fn lock<R, F>(&mut self, f: F) -> (r: R) where
        F: FnOnce(
            &mut D1, &mut D2, &mut D3, &mut D4, &mut D5, &mut D6, &mut D7, &mut D8, &mut D9,
            &mut D10, &mut D11, &mut D12, &mut D13, &mut D14, &mut D15, &mut D16,
        ) -> R,
    {
        lock_all16(
            &mut self.0, &mut self.1, &mut self.2, &mut self.3, &mut self.4, &mut self.5,
            &mut self.6, &mut self.7, &mut self.8, &mut self.9, &mut self.10, &mut self.11,
            &mut self.12, &mut self.13, &mut self.14, &mut self.15, f,
        )
    }
}

} // verus!
