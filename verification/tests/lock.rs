use critical_section_lock_mut::LockError;
use critical_section_lock_mut::LockMut;
use std::cell::Cell;
use std::cell::RefCell;

#[derive(Debug, Clone, Copy, PartialEq, Eq)]
struct Pair {
    a: i32,
    b: i32,
}

#[test]
fn fresh_lock_is_uninitialized() {
    let lock: LockMut<u8> = LockMut::new();
    let ran = Cell::new(false);
    let r = lock.with_lock(|v| {
        ran.set(true);
        *v
    });
    assert_eq!(r, Err(LockError::Uninitialized));
    assert!(!ran.get());
    // Asking again changes nothing.
    assert_eq!(lock.with_lock(|v| *v), Err(LockError::Uninitialized));
}

#[test]
fn init_succeeds_exactly_once() {
    let lock: LockMut<u32> = LockMut::new();
    assert_eq!(lock.init(11), Ok(()));
    assert_eq!(lock.init(22), Err(LockError::Reinitialized));
    assert_eq!(lock.with_lock(|v| *v), Ok(11));
    assert_eq!(lock.init(33), Err(LockError::Reinitialized));
    assert_eq!(lock.with_lock(|v| *v), Ok(11));
}

#[test]
fn mutation_round_trip() {
    let f = |x: i64| x * 7 - 3;
    let inputs: [i64; 5] = [0, 1, -1, 1000, -123456];
    for x in inputs {
        let lock: LockMut<i64> = LockMut::new();
        assert_eq!(lock.init(x), Ok(()));
        assert_eq!(lock.with_lock(|v| *v = f(*v)), Ok(()));
        assert_eq!(lock.with_lock(|v| *v), Ok(f(x)));
    }
}

#[test]
fn callbacks_run_one_after_the_other() {
    for order in [["A", "B"], ["B", "A"]] {
        let lock: LockMut<Vec<String>> = LockMut::new();
        assert_eq!(lock.init(Vec::new()), Ok(()));
        for name in order {
            let r = lock.with_lock(|log| {
                log.push(format!("{name} enter"));
                log.push(format!("{name} exit"));
            });
            assert_eq!(r, Ok(()));
        }
        let log = lock.with_lock(|log| log.clone());
        let (first, second) = (order[0], order[1]);
        assert_eq!(
            log,
            Ok(vec![
                format!("{first} enter"),
                format!("{first} exit"),
                format!("{second} enter"),
                format!("{second} exit"),
            ])
        );
    }
}

#[test]
fn an_access_that_interrupts_another_does_not_run() {
    let lock: LockMut<Vec<&'static str>> = LockMut::new();
    assert_eq!(lock.init(Vec::new()), Ok(()));
    let inner_ran = Cell::new(false);
    let inner = RefCell::new(Ok(()));
    let outer = lock.with_lock(|log| {
        log.push("A enter");
        *inner.borrow_mut() = lock.with_lock(|_| inner_ran.set(true));
        log.push("A exit");
    });
    assert_eq!(outer, Ok(()));
    assert_eq!(*inner.borrow(), Err(LockError::Reentered));
    assert!(!inner_ran.get());
    assert_eq!(lock.with_lock(|log| log.clone()), Ok(vec!["A enter", "A exit"]));
}

#[test]
fn init_from_inside_a_callback_is_refused() {
    let lock: LockMut<u8> = LockMut::new();
    assert_eq!(lock.init(1), Ok(()));
    let r = lock.with_lock(|v| {
        let inner = lock.init(9);
        *v += 1;
        inner
    });
    assert_eq!(r, Ok(Err(LockError::Reentered)));
    assert_eq!(lock.with_lock(|v| *v), Ok(2));
}

#[test]
fn counter() {
    let lock: LockMut<i32> = LockMut::new();
    assert_eq!(lock.init(3), Ok(()));
    assert_eq!(lock.with_lock(|v| *v += 1), Ok(()));
    assert_eq!(lock.with_lock(|v| *v), Ok(4));
    assert_eq!(lock.with_lock(|v| *v += 1), Ok(()));
    assert_eq!(lock.with_lock(|v| *v += 1), Ok(()));
    assert_eq!(lock.with_lock(|v| *v), Ok(6));
}

#[test]
fn struct_payload() {
    let lock: LockMut<Pair> = LockMut::new();
    assert_eq!(lock.init(Pair { a: 1, b: 2 }), Ok(()));
    let r = lock.with_lock(|p| {
        p.a += p.b;
        p.b = 0;
    });
    assert_eq!(r, Ok(()));
    assert_eq!(lock.with_lock(|p| *p), Ok(Pair { a: 3, b: 0 }));
}

#[test]
fn access_before_init_gives_no_default() {
    let lock: LockMut<i32> = LockMut::new();
    let r = lock.with_lock(|v| *v);
    assert_eq!(r, Err(LockError::Uninitialized));
    assert_ne!(r, Ok(0));
    // The lock is still usable afterwards.
    assert_eq!(lock.init(5), Ok(()));
    assert_eq!(lock.with_lock(|v| *v), Ok(5));
}

#[test]
fn callback_result_is_passed_through() {
    let lock: LockMut<String> = LockMut::new();
    assert_eq!(lock.init(String::from("abc")), Ok(()));
    let r = lock.with_lock(|s| {
        s.push('d');
        s.len()
    });
    assert_eq!(r, Ok(4));
    assert_eq!(lock.with_lock(|s| s.clone()), Ok(String::from("abcd")));
}

#[test]
fn works_inside_an_outer_critical_section() {
    let lock: LockMut<u8> = LockMut::new();
    let r = critical_section::with(|_| {
        let first = lock.init(7);
        let second = lock.with_lock(|v| {
            *v *= 2;
            *v
        });
        (first, second)
    });
    assert_eq!(r, (Ok(()), Ok(14)));
}

#[test]
fn different_locks_can_be_nested() {
    let outer: LockMut<u8> = LockMut::new();
    let inner: LockMut<u8> = LockMut::new();
    assert_eq!(outer.init(1), Ok(()));
    assert_eq!(inner.init(10), Ok(()));
    let r = outer.with_lock(|a| {
        inner.with_lock(|b| {
            *b += *a;
            *b
        })
    });
    assert_eq!(r, Ok(Ok(11)));
}

#[test]
fn lock_can_be_shared_through_a_static() {
    static SHARED: std::sync::OnceLock<LockMut<u8>> = std::sync::OnceLock::new();
    let lock = SHARED.get_or_init(LockMut::new);
    assert_eq!(lock.init(3), Ok(()));
    assert_eq!(lock.with_lock(|u| *u += 1), Ok(()));
    assert_eq!(SHARED.get_or_init(LockMut::new).with_lock(|u| *u), Ok(4));
}
