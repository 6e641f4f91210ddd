use mutex_trait::{Exclusive, Mutex, TupleExt01, TupleExt02, TupleExt03, TupleExt16};

#[test]
fn exclusive_lock_then_unwrap() {
    let mut e = Exclusive::new(0);
    e.lock(|x| *x += 1);
    assert_eq!(e.into_inner(), 1);
}

#[test]
fn exclusive_new_then_unwrap_keeps_value() {
    let e = Exclusive::new(vec![1u8, 2, 3]);
    assert_eq!(e.into_inner(), vec![1u8, 2, 3]);
}

#[test]
fn three_locks_return_their_sum() {
    let mut a = Exclusive::new(1i64);
    let mut b = Exclusive::new(10i64);
    let mut c = Exclusive::new(100i64);
    let sum = (&mut a, &mut b, &mut c).lock(|x, y, z| {
        *x += 1;
        *y += 1;
        *z += 1;
        *x + *y + *z
    });
    let (x, y, z) = (a.into_inner(), b.into_inner(), c.into_inner());
    assert_eq!((x, y, z), (2, 11, 101));
    assert_eq!(sum, x + y + z);
    assert_eq!(sum, 114);
}

#[test]
fn single_composition_matches_direct_lock() {
    let mut direct = Exclusive::new(7u32);
    let mut composed = Exclusive::new(7u32);
    let r1 = direct.lock(|x| {
        *x = *x * 2 + 1;
        *x + 100
    });
    let r2 = (&mut composed,).lock(|x| {
        *x = *x * 2 + 1;
        *x + 100
    });
    assert_eq!(r1, 115);
    assert_eq!(r1, r2);
    assert_eq!(direct.into_inner(), 15);
    assert_eq!(composed.into_inner(), 15);
}

#[test]
fn lock_through_reference_matches_direct_lock() {
    let mut direct = Exclusive::new(String::from("ab"));
    let mut behind = Exclusive::new(String::from("ab"));
    let r1 = direct.lock(|s| {
        s.push('c');
        s.len()
    });
    let mut handle = &mut behind;
    let r2 = handle.lock(|s| {
        s.push('c');
        s.len()
    });
    assert_eq!((r1, r2), (3, 3));
    assert_eq!(direct.into_inner(), "abc");
    assert_eq!(behind.into_inner(), "abc");
}

#[test]
fn composition_forwards_unit_integer_and_compound_results() {
    let mut a = Exclusive::new(1u8);
    let mut b = Exclusive::new(2u8);
    let unit: () = (&mut a, &mut b).lock(|x, y| {
        *x += *y;
    });
    assert_eq!(unit, ());
    let n = (&mut a, &mut b).lock(|x, y| *x as u32 * 1000 + *y as u32);
    assert_eq!(n, 3002);
    let pair = (&mut a, &mut b).lock(|x, y| (vec![*x, *y], Some(*x > *y)));
    assert_eq!(pair, (vec![3u8, 2u8], Some(true)));
    assert_eq!((a.into_inner(), b.into_inner()), (3, 2));
}

#[test]
fn sixteen_locks_taken_together() {
    let mut v: Vec<Exclusive<u32>> = Vec::new();
    for i in 0..16u32 {
        v.push(Exclusive::new(i));
    }
    let mut it = v.into_iter();
    let mut l: Vec<Exclusive<u32>> = Vec::new();
    for _ in 0..16 {
        l.push(it.next().unwrap());
    }
    let [mut e0, mut e1, mut e2, mut e3, mut e4, mut e5, mut e6, mut e7, mut e8, mut e9, mut e10, mut e11, mut e12, mut e13, mut e14, mut e15]: [Exclusive<u32>; 16] =
        match l.try_into() {
            Ok(a) => a,
            Err(_) => panic!("sixteen locks expected"),
        };
    let total = (
        &mut e0, &mut e1, &mut e2, &mut e3, &mut e4, &mut e5, &mut e6, &mut e7, &mut e8,
        &mut e9, &mut e10, &mut e11, &mut e12, &mut e13, &mut e14, &mut e15,
    )
        .lock(|a, b, c, d, e, f, g, h, i, j, k, l, m, n, o, p| {
            let all = [a, b, c, d, e, f, g, h, i, j, k, l, m, n, o, p];
            let mut s = 0;
            for x in all {
                *x += 1;
                s += *x;
            }
            s
        });
    assert_eq!(total, (1..=16).sum::<u32>());
    assert_eq!(e0.into_inner(), 1);
    assert_eq!(e15.into_inner(), 16);
    assert_eq!(e7.into_inner(), 8);
}

#[test]
fn exclusive_around_a_borrowed_variable() {
    let mut v = 0;
    let mut e = Exclusive::new(&mut v);
    let seen = e.lock(|x| {
        **x += 1;
        **x
    });
    let back = e.into_inner();
    assert_eq!(*back, 1);
    assert_eq!(seen, 1);
    assert_eq!(v, 1);
}
