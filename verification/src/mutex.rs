//! A mutex backed by a hardware spinlock.

use crate::spinlock::claim_granted;
use crate::spinlock::held_after_claim;
use crate::spinlock::held_after_release;
use crate::spinlock::Spinlock;
use crate::spinlock::SpinlockBank;
use crate::spinlock::SPINLOCK_COUNT;
use core::ops::Deref;
use core::ops::DerefMut;
use vstd::prelude::*;

verus! {

/// A mutex backed by hardware spinlock `N`.
///
/// The mutex owns its payload and keeps no lock state of its own: whether it
/// is locked is a question for the bank alone, and every mutex of the same
/// `N` contends for the same lock.
pub struct SpinlockMutex<T, const N: usize> {
    data: T,
}

/// A mutable borrow of the data inside of a mutex, together with the lock
/// that protects it.
///
/// The guard ends with `release`, which hands the lock back to the bank. A
/// guard that is dropped instead ends the borrow and leaves the lock taken.
pub struct RefMut<'l, T, const N: usize> {
    /// The held lock.
    pub spinlock: Spinlock<N>,
    /// The payload of the mutex.
    pub data: &'l mut T,
}

impl<'l, T, const N: usize> RefMut<'l, T, N> {
    /// The payload as the guard sees it now.
    pub open spec fn view(&self) -> T {
        *self.data
    }

    /// Ties a held lock to an exclusive reference.
    pub fn new(data: &'l mut T, lock: Spinlock<N>) -> (guard: Self)
        ensures
            guard@ == *old(data),
            guard.spinlock == lock,
            *final(guard.data) == *final(data),
    {
        RefMut { spinlock: lock, data }
    }

    /// Gives the lock back to the bank and ends the borrow. The mutex keeps
    /// the payload as the guard last saw it.
    pub fn release(self, bank: &mut SpinlockBank)
        ensures
            final(bank).held() == held_after_release(old(bank).held(), N as nat),
            *final(self.data) == self@,
    {
        self.spinlock.release(bank);
    }
}

impl<'l, T, const N: usize> AsMut<T> for RefMut<'l, T, N> {
    fn as_mut(&mut self) -> (payload: &mut T)
        ensures
            *payload == old(self)@,
            final(self)@ == *final(payload),
            final(self).spinlock == old(self).spinlock,
            *final(final(self).data) == *final(old(self).data),
    {
        &mut *self.data
    }
}

impl<'l, T, const N: usize> AsRef<T> for RefMut<'l, T, N> {
    fn as_ref(&self) -> (payload: &T)
        ensures
            *payload == self@,
    {
        &*self.data
    }
}

impl<'l, T, const N: usize> Deref for RefMut<'l, T, N> {
    type Target = T;

    fn deref(&self) -> (payload: &T)
        ensures
            *payload == self@,
    {
        &*self.data
    }
}

impl<'l, T, const N: usize> DerefMut for RefMut<'l, T, N> {
    fn deref_mut(&mut self) -> (payload: &mut T)
        ensures
            *payload == old(self)@,
            final(self)@ == *final(payload),
            final(self).spinlock == old(self).spinlock,
            *final(final(self).data) == *final(old(self).data),
    {
        &mut *self.data
    }
}

impl<T, const N: usize> SpinlockMutex<T, N> {
    /// The payload.
    pub closed spec fn view(&self) -> T {
        self.data
    }

    /// Create a new mutex around `data`. No lock is claimed.
    pub fn new(data: T) -> (mutex: Self)
        ensures
            mutex@ == data,
    {
        SpinlockMutex { data }
    }

    /// Take a mutable reference to the data inside the mutex, with
    /// a lock you already claimed.
    pub fn lock_with(&mut self, lock: Spinlock<N>) -> (guard: RefMut<'_, T, N>)
        ensures
            guard@ == old(self)@,
            guard.spinlock == lock,
            final(self)@ == *final(guard.data),
    {
        RefMut::new(&mut self.data, lock)
    }

    /// Try to claim the spinlock. If successful, returns a mutable reference.
    /// If unsuccessful, returns `None`. Does not block.
    pub fn try_lock(&mut self, bank: &mut SpinlockBank) -> (guard: Option<RefMut<'_, T, N>>)
        requires
            N < SPINLOCK_COUNT,
        ensures
            guard is Some <==> claim_granted(old(bank).held(), N as nat),
            final(bank).held() == held_after_claim(old(bank).held(), N as nat),
            guard matches Some(g) ==> g@ == old(self)@ && final(self)@ == *final(g.data),
            guard is None ==> final(self)@ == old(self)@,
    {
        match Spinlock::<N>::try_claim(bank) {
            Some(lock) => Some(self.lock_with(lock)),
            None => None,
        }
    }

    /// Wait for the spinlock to be unlocked, blocking the current core.
    ///
    /// This never returns if the lock has already been claimed and is not
    /// given back; the lock has to be free on entry.
    pub fn lock_blocking(&mut self, bank: &mut SpinlockBank) -> (guard: RefMut<'_, T, N>)
        requires
            N < SPINLOCK_COUNT,
            claim_granted(old(bank).held(), N as nat),
        ensures
            final(bank).held() == held_after_claim(old(bank).held(), N as nat),
            guard@ == old(self)@,
            final(self)@ == *final(guard.data),
    {
        self.lock_with(Spinlock::<N>::claim(bank))
    }

    /// Consume the mutex, returning the inner data. This neither
    /// claims the spinlock, nor blocks the current core.
    pub fn into_inner(self) -> (data: T)
        ensures
            data == self@,
    {
        self.data
    }

    /// Acquire a temporary mutable reference to the inner data with
    /// `lock_blocking`, call `f` on it, and give the lock back.
    pub fn call_with_lock_blocking<F, R>(&mut self, bank: &mut SpinlockBank, mut f: F) -> (ret: R) where
        F: FnMut(&mut T) -> R,

        requires
            N < SPINLOCK_COUNT,
            claim_granted(old(bank).held(), N as nat),
            forall|payload: &mut T| *payload == old(self)@ ==> call_requires(f, (payload,)),
        ensures
            final(bank).held() == old(bank).held(),
            exists|payload: &mut T|
                *payload == old(self)@ && *final(payload) == final(self)@ && call_ensures(
                    f,
                    (payload,),
                    ret,
                ),
    {
        let mut l = self.lock_blocking(bank);
        let ret = f(l.as_mut());
        l.release(bank);
        assert(bank.held() =~= old(bank).held());
        ret
    }

    /// Attempts to acquire a temporary mutable reference to the inner data
    /// with `try_lock`. If the lock is granted, calls `f` on the data and
    /// gives the lock back; if not, `f` is not called and nothing changes.
    pub fn try_call_with_lock<F, R>(&mut self, bank: &mut SpinlockBank, mut f: F) -> (ret: Option<
        R,
    >) where F: FnMut(&mut T) -> R
        requires
            N < SPINLOCK_COUNT,
            claim_granted(old(bank).held(), N as nat) ==> forall|payload: &mut T|
                *payload == old(self)@ ==> call_requires(f, (payload,)),
        ensures
            ret is Some <==> claim_granted(old(bank).held(), N as nat),
            final(bank).held() == old(bank).held(),
            ret matches Some(r) ==> exists|payload: &mut T|
                *payload == old(self)@ && *final(payload) == final(self)@ && call_ensures(
                    f,
                    (payload,),
                    r,
                ),
            ret is None ==> final(self)@ == old(self)@,
    {
        let mut l = self.try_lock(bank)?;
        let r = f(l.as_mut());
        l.release(bank);
        assert(bank.held() =~= old(bank).held());
        Some(r)
    }
}

impl<T, const N: usize> SpinlockMutex<Option<T>, N> {
    /// Construct a mutex whose payload has not been initialized yet.
    pub fn uninit() -> (mutex: Self)
        ensures
            mutex@ is None,
    {
        SpinlockMutex { data: None }
    }

    /// Turns an initialized mutex into a mutex of the value itself.
    /// The payload has to be initialized.
    pub fn assume_init(self) -> (mutex: SpinlockMutex<T, N>)
        requires
            self@ is Some,
        ensures
            Some(mutex@) == self@,
    {
        let data = self.data;
        SpinlockMutex { data: data.unwrap() }
    }

    /// `try_lock`, with a guard for the value itself.
    /// The payload has to be initialized.
    pub fn try_assume_init_lock(&mut self, bank: &mut SpinlockBank) -> (guard: Option<
        RefMut<'_, T, N>,
    >)
        requires
            N < SPINLOCK_COUNT,
            old(self)@ is Some,
        ensures
            guard is Some <==> claim_granted(old(bank).held(), N as nat),
            final(bank).held() == held_after_claim(old(bank).held(), N as nat),
            guard matches Some(g) ==> Some(g@) == old(self)@ && final(self)@ == Some(
                *final(g.data),
            ),
            guard is None ==> final(self)@ == old(self)@,
    {
        match self.try_lock(bank) {
            Some(r) => Some(r.assume_init()),
            None => None,
        }
    }

    /// `lock_blocking`, with a guard for the value itself.
    /// The payload has to be initialized, and the lock free on entry.
    pub fn assume_init_lock_blocking(&mut self, bank: &mut SpinlockBank) -> (guard: RefMut<
        '_,
        T,
        N,
    >)
        requires
            N < SPINLOCK_COUNT,
            claim_granted(old(bank).held(), N as nat),
            old(self)@ is Some,
        ensures
            final(bank).held() == held_after_claim(old(bank).held(), N as nat),
            Some(guard@) == old(self)@,
            final(self)@ == Some(*final(guard.data)),
    {
        let l = self.lock_blocking(bank);
        l.assume_init()
    }

    /// `lock_with`, with a guard for the value itself.
    /// The payload has to be initialized.
    pub fn assume_init_lock_with(&mut self, lock: Spinlock<N>) -> (guard: RefMut<'_, T, N>)
        requires
            old(self)@ is Some,
        ensures
            Some(guard@) == old(self)@,
            guard.spinlock == lock,
            final(self)@ == Some(*final(guard.data)),
    {
        let l = self.lock_with(lock);
        l.assume_init()
    }
}

impl<'l, T, const N: usize> RefMut<'l, Option<T>, N> {
    /// Narrows the guard of an initialized payload to the value itself.
    /// The lock stays held, and the payload stays initialized.
    pub fn assume_init(self) -> (guard: RefMut<'l, T, N>)
        requires
            self@ is Some,
        ensures
            Some(guard@) == self@,
            guard.spinlock == self.spinlock,
            *final(self.data) == Some(*final(guard.data)),
    {
        RefMut { spinlock: self.spinlock, data: self.data.as_mut().unwrap() }
    }
}

} // verus!
