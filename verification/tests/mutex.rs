use rp_sync::mutex::RefMut;
use rp_sync::mutex::SpinlockMutex;
use rp_sync::spinlock::Spinlock;
use rp_sync::spinlock::SpinlockBank;
use std::cell::Cell;

#[test]
fn second_try_lock_while_a_guard_is_live_is_refused() {
    let mut bank = SpinlockBank::new();
    let mut first = SpinlockMutex::<u32, 4>::new(1);
    let mut second = SpinlockMutex::<u32, 4>::new(2);
    let guard = first.try_lock(&mut bank).expect("lock 4 is free");
    assert!(second.try_lock(&mut bank).is_none());
    assert!(second.try_lock(&mut bank).is_none());
    assert_eq!(*guard, 1);
}

#[test]
fn try_lock_after_lock_blocking_is_refused() {
    let mut bank = SpinlockBank::new();
    let mut first = SpinlockMutex::<u32, 7>::new(1);
    let mut second = SpinlockMutex::<u32, 7>::new(2);
    let _guard = first.lock_blocking(&mut bank);
    assert!(second.try_lock(&mut bank).is_none());
}

#[test]
fn try_lock_after_release_is_granted() {
    let mut bank = SpinlockBank::new();
    let mut mutex = SpinlockMutex::<u32, 7>::new(1);
    let guard = mutex.lock_blocking(&mut bank);
    guard.release(&mut bank);
    assert!(!bank.is_locked(7));
    let guard = mutex.try_lock(&mut bank);
    assert!(guard.is_some());
}

#[test]
fn refused_try_lock_changes_nothing() {
    let mut bank = SpinlockBank::new();
    let holder = Spinlock::<2>::claim(&mut bank);
    let mut mutex = SpinlockMutex::<u32, 2>::new(11);
    assert!(mutex.try_lock(&mut bank).is_none());
    assert!(bank.is_locked(2));
    assert!(!bank.is_locked(1));
    assert!(!bank.is_locked(3));
    holder.release(&mut bank);
    assert_eq!(mutex.into_inner(), 11);
}

#[test]
fn mutexes_of_other_lock_ids_are_not_blocked() {
    let mut bank = SpinlockBank::new();
    let mut first = SpinlockMutex::<u32, 0>::new(1);
    let mut second = SpinlockMutex::<u32, 1>::new(2);
    let a = first.lock_blocking(&mut bank);
    let b = second.try_lock(&mut bank).expect("lock 1 is free");
    assert_eq!(*a + *b, 3);
}

#[test]
fn into_inner_of_a_never_locked_mutex_returns_the_stored_value() {
    let mutex = SpinlockMutex::<String, 0>::new(String::from("payload"));
    assert_eq!(mutex.into_inner(), "payload");
    let mutex = SpinlockMutex::<(u8, i64), 31>::new((7, -9));
    assert_eq!(mutex.into_inner(), (7, -9));
}

#[test]
fn new_claims_no_lock() {
    let mut bank = SpinlockBank::new();
    let _mutex = SpinlockMutex::<u32, 6>::new(0);
    assert!(!bank.is_locked(6));
    assert!(Spinlock::<6>::try_claim(&mut bank).is_some());
}

#[test]
fn writes_through_a_guard_reach_the_mutex() {
    let mut bank = SpinlockBank::new();
    let mut mutex = SpinlockMutex::<Vec<u32>, 3>::new(vec![1]);
    let mut guard = mutex.lock_blocking(&mut bank);
    guard.push(2);
    guard.as_mut().push(3);
    assert_eq!(guard.as_ref(), &vec![1, 2, 3]);
    guard.release(&mut bank);
    let guard = mutex.try_lock(&mut bank).expect("lock 3 was given back");
    assert_eq!(*guard, vec![1, 2, 3]);
    guard.release(&mut bank);
    assert_eq!(mutex.into_inner(), vec![1, 2, 3]);
}

#[test]
fn lock_with_wraps_a_lock_claimed_by_the_caller() {
    let mut bank = SpinlockBank::new();
    let mut low = SpinlockMutex::<u32, 1>::new(10);
    let mut high = SpinlockMutex::<u32, 2>::new(20);
    let low_lock = Spinlock::<1>::claim(&mut bank);
    let high_lock = Spinlock::<2>::claim(&mut bank);
    let mut high_guard = high.lock_with(high_lock);
    let mut low_guard = low.lock_with(low_lock);
    *low_guard += 1;
    *high_guard += 2;
    low_guard.release(&mut bank);
    high_guard.release(&mut bank);
    assert!(!bank.is_locked(1));
    assert!(!bank.is_locked(2));
    assert_eq!(low.into_inner(), 11);
    assert_eq!(high.into_inner(), 22);
}

#[test]
fn guard_is_made_of_a_lock_and_a_reference() {
    let mut bank = SpinlockBank::new();
    let mut payload = 5u32;
    let lock = Spinlock::<12>::claim(&mut bank);
    let mut guard = RefMut::new(&mut payload, lock);
    *guard.data = 6;
    guard.spinlock.release(&mut bank);
    assert!(!bank.is_locked(12));
    assert_eq!(payload, 6);
}

#[test]
fn call_with_lock_blocking_forwards_the_result() {
    let mut bank = SpinlockBank::new();
    let mut mutex = SpinlockMutex::<u32, 9>::new(20);
    let seen = mutex.call_with_lock_blocking(&mut bank, |payload| {
        let before = *payload;
        *payload += 22;
        before
    });
    assert_eq!(seen, 20);
    assert!(!bank.is_locked(9));
    assert_eq!(mutex.into_inner(), 42);
}

#[test]
fn call_with_lock_blocking_holds_the_lock_during_the_call() {
    let mut bank = SpinlockBank::new();
    let mut mutex = SpinlockMutex::<u32, 9>::new(0);
    let calls = Cell::new(0);
    mutex.call_with_lock_blocking(&mut bank, |_payload| calls.set(calls.get() + 1));
    assert_eq!(calls.get(), 1);
    assert!(mutex.try_lock(&mut bank).is_some());
}

#[test]
fn try_call_with_lock_on_a_free_lock_calls_the_function() {
    let mut bank = SpinlockBank::new();
    let mut mutex = SpinlockMutex::<u32, 10>::new(1);
    let ret = mutex.try_call_with_lock(&mut bank, |payload| {
        *payload *= 8;
        "done"
    });
    assert_eq!(ret, Some("done"));
    assert!(!bank.is_locked(10));
    assert_eq!(mutex.into_inner(), 8);
}

#[test]
fn try_call_with_lock_on_a_taken_lock_does_not_call_the_function() {
    let mut bank = SpinlockBank::new();
    let _holder = Spinlock::<10>::claim(&mut bank);
    let mut mutex = SpinlockMutex::<u32, 10>::new(1);
    let calls = Cell::new(0);
    let ret = mutex.try_call_with_lock(&mut bank, |payload| {
        calls.set(calls.get() + 1);
        *payload = 99;
    });
    assert_eq!(ret, None);
    assert_eq!(calls.get(), 0);
    assert!(bank.is_locked(10));
    assert_eq!(mutex.into_inner(), 1);
}

#[test]
fn uninit_mutex_holds_no_value() {
    let mut bank = SpinlockBank::new();
    let mut mutex = SpinlockMutex::<Option<u32>, 0>::uninit();
    let guard = mutex.try_lock(&mut bank).expect("lock 0 is free");
    assert_eq!(*guard, None);
}

#[test]
fn uninit_mutex_is_written_then_locked_as_initialized() {
    let mut bank = SpinlockBank::new();
    let mut mutex = SpinlockMutex::<Option<u32>, 0>::uninit();
    let mut guard = mutex.try_lock(&mut bank).expect("lock 0 is free");
    *guard = Some(42);
    guard.release(&mut bank);
    let guard = mutex.try_assume_init_lock(&mut bank).expect("lock 0 was given back");
    assert_eq!(*guard, 42);
}

#[test]
fn try_assume_init_lock_on_a_taken_lock_is_refused() {
    let mut bank = SpinlockBank::new();
    let mut mutex = SpinlockMutex::<Option<u32>, 0>::new(Some(1));
    let _holder = Spinlock::<0>::claim(&mut bank);
    assert!(mutex.try_assume_init_lock(&mut bank).is_none());
    assert_eq!(mutex.into_inner(), Some(1));
}

#[test]
fn assume_init_unwraps_the_mutex() {
    let mut bank = SpinlockBank::new();
    let mut mutex = SpinlockMutex::<Option<u32>, 3>::uninit();
    mutex.call_with_lock_blocking(&mut bank, |payload| *payload = Some(17));
    let mutex: SpinlockMutex<u32, 3> = mutex.assume_init();
    assert_eq!(mutex.into_inner(), 17);
}

#[test]
fn assume_init_lock_blocking_writes_reach_the_payload() {
    let mut bank = SpinlockBank::new();
    let mut mutex = SpinlockMutex::<Option<u32>, 3>::new(Some(1));
    let mut guard = mutex.assume_init_lock_blocking(&mut bank);
    assert!(bank.is_locked(3));
    *guard += 1;
    guard.release(&mut bank);
    assert_eq!(mutex.into_inner(), Some(2));
}

#[test]
fn assume_init_lock_with_uses_the_given_lock() {
    let mut bank = SpinlockBank::new();
    let mut mutex = SpinlockMutex::<Option<u32>, 3>::new(Some(5));
    let lock = Spinlock::<3>::claim(&mut bank);
    let mut guard = mutex.assume_init_lock_with(lock);
    *guard = 6;
    guard.release(&mut bank);
    assert!(!bank.is_locked(3));
    assert_eq!(mutex.into_inner(), Some(6));
}

#[test]
fn guard_assume_init_keeps_the_lock() {
    let mut bank = SpinlockBank::new();
    let mut mutex = SpinlockMutex::<Option<u32>, 3>::new(Some(5));
    let guard = mutex.lock_blocking(&mut bank);
    let mut guard: RefMut<'_, u32, 3> = guard.assume_init();
    assert!(bank.is_locked(3));
    *guard = 8;
    guard.release(&mut bank);
    assert_eq!(mutex.into_inner(), Some(8));
}
