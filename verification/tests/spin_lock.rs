use std::sync::Arc;
use sync_primitives::spin_lock::{SpinLock, SpinLockGuard};

fn acquire<T>(lock: &SpinLock<T>) -> SpinLockGuard<'_, T> {
    loop {
        if let Some(guard) = lock.lock(8) {
            return guard;
        }
        loom::thread::yield_now();
    }
}

#[test]
fn spin_lock_vague_loom_test() {
    loom::model(|| {
        let lock = Arc::new(SpinLock::new(String::from("hello")));
        let lock2 = Arc::clone(&lock);
        let lock3 = Arc::clone(&lock);
        let jh = loom::thread::spawn(move || {
            acquire(&lock).push('!');
        });
        let jh2 = loom::thread::spawn(move || {
            acquire(&lock2).push('!');
        });
        jh.join().unwrap();
        jh2.join().unwrap();

        assert_eq!(*acquire(&lock3), "hello!!");
    });
}

#[test]
fn tests_test_from_book() {
    loom::model(|| {
        let x = Arc::new(SpinLock::new(Vec::new()));
        let a = Arc::clone(&x);
        let b = Arc::clone(&x);
        let first = loom::thread::spawn(move || acquire(&a).push(1));
        let second = loom::thread::spawn(move || {
            let mut g = acquire(&b);
            g.push(2);
            g.push(2);
        });
        first.join().unwrap();
        second.join().unwrap();
        let g = acquire(&x);
        assert!(g.as_slice() == [1, 2, 2] || g.as_slice() == [2, 2, 1]);
    });
}

#[test]
fn lock_is_refused_while_a_guard_exists() {
    let lock = SpinLock::new(5u32);
    let guard = lock.lock(1).unwrap();
    assert!(lock.lock(3).is_none());
    drop(guard);
    assert!(lock.lock(1).is_some());
}

#[test]
fn lock_with_no_spins_does_not_try() {
    let lock = SpinLock::new(5u32);
    assert!(lock.lock(0).is_none());
    assert!(lock.lock(1).is_some());
}

#[test]
fn into_inner_yields_what_was_written_under_the_lock() {
    let lock = SpinLock::new(vec![1u8]);
    {
        let mut guard = lock.lock(1).unwrap();
        guard.push(2);
        assert_eq!(*guard, vec![1, 2]);
    }
    assert_eq!(SpinLock::into_inner(lock), Some(vec![1, 2]));
}

fn shared_between_threads<T: Sync>() {}

#[test]
fn a_lock_around_a_sendable_value_is_shareable() {
    shared_between_threads::<SpinLock<String>>();
    shared_between_threads::<SpinLock<std::cell::Cell<u8>>>();
}

#[test]
fn spin_lock_vague_general_test() {
    loom::model(|| {
        let lock = Arc::new(SpinLock::new(String::from("hello")));
        let lock2 = Arc::clone(&lock);
        let lock3 = Arc::clone(&lock);
        let a = loom::thread::spawn(move || {
            acquire(&lock2).push('!');
        });
        let b = loom::thread::spawn(move || {
            acquire(&lock3).push('!');
        });
        a.join().unwrap();
        b.join().unwrap();

        assert_eq!(*acquire(&lock), "hello!!");
    });
}

#[test]
fn into_inner_of_a_fresh_lock_yields_its_value() {
    assert_eq!(SpinLock::into_inner(SpinLock::new(7u8)), Some(7));
}

#[test]
fn a_guard_that_is_never_dropped_takes_the_value_along() {
    let lock = SpinLock::new(String::from("hello"));
    std::mem::forget(lock.lock(1).unwrap());
    assert!(lock.lock(4).is_none());
    assert_eq!(SpinLock::into_inner(lock), None);
}

#[test]
fn a_guard_reads_what_it_wrote() {
    let lock = SpinLock::new(1u32);
    let mut guard = lock.lock(1).unwrap();
    assert_eq!(*guard, 1);
    *guard = 2;
    assert_eq!(*guard, 2);
    drop(guard);
    assert_eq!(*lock.lock(1).unwrap(), 2);
}
