use rp_sync::spinlock::Spinlock;
use rp_sync::spinlock::SpinlockBank;
use rp_sync::spinlock::SPINLOCK_COUNT;

#[test]
fn bank_has_thirty_two_locks() {
    assert_eq!(SPINLOCK_COUNT, 32);
}

#[test]
fn new_bank_has_every_lock_free() {
    let bank = SpinlockBank::new();
    for id in 0..SPINLOCK_COUNT {
        assert!(!bank.is_locked(id));
    }
}

#[test]
fn try_claim_takes_a_free_lock() {
    let mut bank = SpinlockBank::new();
    let lock = Spinlock::<5>::try_claim(&mut bank);
    assert!(lock.is_some());
    assert!(bank.is_locked(5));
}

#[test]
fn try_claim_of_a_taken_lock_is_refused() {
    let mut bank = SpinlockBank::new();
    let first = Spinlock::<5>::try_claim(&mut bank);
    let second = Spinlock::<5>::try_claim(&mut bank);
    assert!(first.is_some());
    assert!(second.is_none());
    assert!(bank.is_locked(5));
}

#[test]
fn try_claim_after_blocking_claim_is_refused() {
    let mut bank = SpinlockBank::new();
    let _held = Spinlock::<9>::claim(&mut bank);
    assert!(Spinlock::<9>::try_claim(&mut bank).is_none());
}

#[test]
fn release_frees_the_lock() {
    let mut bank = SpinlockBank::new();
    let lock = Spinlock::<5>::claim(&mut bank);
    lock.release(&mut bank);
    assert!(!bank.is_locked(5));
    assert!(Spinlock::<5>::try_claim(&mut bank).is_some());
}

#[test]
fn locks_do_not_disturb_each_other() {
    let mut bank = SpinlockBank::new();
    let zero = Spinlock::<0>::claim(&mut bank);
    let one = Spinlock::<1>::try_claim(&mut bank).expect("lock 1 is free");
    assert!(bank.is_locked(0));
    assert!(bank.is_locked(1));
    assert!(!bank.is_locked(2));
    zero.release(&mut bank);
    assert!(!bank.is_locked(0));
    assert!(bank.is_locked(1));
    one.release(&mut bank);
    assert!(!bank.is_locked(1));
}

#[test]
fn first_and_last_lock_of_the_bank() {
    let mut bank = SpinlockBank::new();
    let first = Spinlock::<0>::claim(&mut bank);
    let last = Spinlock::<31>::claim(&mut bank);
    assert!(bank.is_locked(0));
    assert!(bank.is_locked(31));
    for id in 1..31 {
        assert!(!bank.is_locked(id));
    }
    last.release(&mut bank);
    assert!(bank.is_locked(0));
    assert!(!bank.is_locked(31));
    first.release(&mut bank);
    assert!(!bank.is_locked(0));
}

#[test]
fn no_lock_outside_the_bank_is_ever_taken() {
    let mut bank = SpinlockBank::new();
    let _all = (
        Spinlock::<0>::claim(&mut bank),
        Spinlock::<8>::claim(&mut bank),
        Spinlock::<31>::claim(&mut bank),
    );
    assert!(!bank.is_locked(32));
    assert!(!bank.is_locked(40));
    assert!(!bank.is_locked(usize::MAX));
}

#[test]
fn a_leaked_handle_leaves_the_lock_taken() {
    let mut bank = SpinlockBank::new();
    let lock = Spinlock::<3>::claim(&mut bank);
    std::mem::forget(lock);
    assert!(bank.is_locked(3));
    assert!(Spinlock::<3>::try_claim(&mut bank).is_none());
}
