use mutex_trait::{Mutex, TupleExt03};
use std::cell::RefCell;

#[derive(Debug, PartialEq)]
enum Event {
    Acquire(u8),
    Release(u8),
}

struct Recording<'a> {
    id: u8,
    data: i32,
    log: &'a RefCell<Vec<Event>>,
}

impl<'a> Mutex<i32> for Recording<'a> {
    fn lock<R, F: FnOnce(&mut i32) -> R>(&mut self, f: F) -> R {
        self.log.borrow_mut().push(Event::Acquire(self.id));
        let r = f(&mut self.data);
        self.log.borrow_mut().push(Event::Release(self.id));
        r
    }
}

#[test]
fn composed_locks_acquire_left_to_right_and_release_in_reverse() {
    let log = RefCell::new(Vec::new());
    let mut a = Recording { id: 1, data: 0, log: &log };
    let mut b = Recording { id: 2, data: 0, log: &log };
    let mut c = Recording { id: 3, data: 0, log: &log };
    let seen_inside = (&mut a, &mut b, &mut c).lock(|x, y, z| {
        *x += 1;
        *y += 2;
        *z += 3;
        log.borrow().len()
    });
    assert_eq!(seen_inside, 3);
    assert_eq!(
        *log.borrow(),
        vec![
            Event::Acquire(1),
            Event::Acquire(2),
            Event::Acquire(3),
            Event::Release(3),
            Event::Release(2),
            Event::Release(1),
        ]
    );
    assert_eq!((a.data, b.data, c.data), (1, 2, 3));
}
