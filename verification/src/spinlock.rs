//! The bank of hardware spinlocks, as state that the lock operations act on.

use core::marker::PhantomData;
use std::rc::Rc;
use vstd::prelude::*;

verus! {

/// Number of spinlocks in the bank. Valid lock ids are `0..SPINLOCK_COUNT`.
pub const SPINLOCK_COUNT: usize = 32;

/// Whether a claim of lock `id` is granted while the locks in `held` are taken.
pub open spec fn claim_granted(held: Set<nat>, id: nat) -> bool {
    !held.contains(id)
}

/// The locks that are taken once lock `id` has been asked for, granted or not.
pub open spec fn held_after_claim(held: Set<nat>, id: nat) -> Set<nat> {
    held.insert(id)
}

/// The locks that are taken once lock `id` has been given back.
pub open spec fn held_after_release(held: Set<nat>, id: nat) -> Set<nat> {
    held.remove(id)
}

/// Bit `id` of the status word.
spec fn status_bit(bits: u32, id: nat) -> bool {
    id < 32 && bits & (1u32 << (id as u32)) != 0
}

proof fn lemma_bit_of_zero(i: u32)
    by (bit_vector)
    requires
        i < 32,
    ensures
        0u32 & (1u32 << i) == 0,
{
}

proof fn lemma_bit_after_set(bits: u32, n: u32, i: u32)
    by (bit_vector)
    requires
        n < 32,
        i < 32,
    ensures
        ((bits | (1u32 << n)) & (1u32 << i) != 0) == (i == n || bits & (1u32 << i) != 0),
{
}

proof fn lemma_bit_after_clear(bits: u32, n: u32, i: u32)
    by (bit_vector)
    requires
        n < 32,
        i < 32,
    ensures
        ((bits & !(1u32 << n)) & (1u32 << i) != 0) == (i != n && bits & (1u32 << i) != 0),
{
}

/// The spinlock bank: one bit per lock, set while the lock is taken.
///
/// The layout is that of the status register of the hardware bank.
pub struct SpinlockBank {
    bits: u32,
}

impl SpinlockBank {
    /// The ids of the locks that are taken.
    pub closed spec fn held(&self) -> Set<nat> {
        Set::new(|id: nat| status_bit(self.bits, id))
    }

    /// A bank in which every lock is free.
    pub fn new() -> (bank: Self)
        ensures
            bank.held() == Set::<nat>::empty(),
    {
        let bank = SpinlockBank { bits: 0 };
        proof {
            assert forall|id: nat| !bank.held().contains(id) by {
                if id < 32 {
                    lemma_bit_of_zero(id as u32);
                }
            }
            assert(bank.held() =~= Set::<nat>::empty());
        }
        bank
    }

    /// Whether lock `id` is taken. No lock outside the bank ever is.
    pub fn is_locked(&self, id: usize) -> (locked: bool)
        ensures
            locked == self.held().contains(id as nat),
    {
        if id < SPINLOCK_COUNT {
            let shift: u32 = id as u32;
            self.bits & (1u32 << shift) != 0
        } else {
            false
        }
    }

    /// Every taken lock is one of the bank's.
    pub proof fn lemma_held_in_bank(&self)
        ensures
            forall|id: nat| self.held().contains(id) ==> id < SPINLOCK_COUNT,
    {
    }
}

/// Proof that lock `N` is held: whoever owns the value holds the lock.
///
/// A handle comes out of a claim and goes back into the bank by `release`;
/// one that is dropped instead leaves its lock taken. It cannot be copied,
/// nothing else makes one, and it stays in the context that claimed it: it
/// is neither `Send` nor `Sync`.
pub struct Spinlock<const N: usize> {
    _marker: PhantomData<Rc<()>>,
}

impl<const N: usize> Spinlock<N> {
    #[verifier::type_invariant]
    spec fn in_bank(self) -> bool {
        N < SPINLOCK_COUNT
    }

    /// Asks for lock `N` once. The lock is granted if and only if it was free;
    /// a lock that was taken stays taken and nothing else changes.
    pub fn try_claim(bank: &mut SpinlockBank) -> (lock: Option<Self>)
        requires
            N < SPINLOCK_COUNT,
        ensures
            lock is Some <==> claim_granted(old(bank).held(), N as nat),
            final(bank).held() == held_after_claim(old(bank).held(), N as nat),
    {
        let shift: u32 = N as u32;
        let mask: u32 = 1u32 << shift;
        let free = bank.bits & mask == 0;
        bank.bits = bank.bits | mask;
        proof {
            assert forall|id: nat|
                bank.held().contains(id) == held_after_claim(old(bank).held(), N as nat).contains(
                    id,
                ) by {
                if id < 32 {
                    lemma_bit_after_set(old(bank).bits, shift, id as u32);
                }
            }
            assert(bank.held() =~= held_after_claim(old(bank).held(), N as nat));
        }
        if free {
            Some(Spinlock { _marker: PhantomData })
        } else {
            None
        }
    }

    /// Polls lock `N` until it is granted.
    ///
    /// While the lock is taken the poll cannot succeed, and nothing in a call
    /// gives it back: the lock has to be free on entry.
    pub fn claim(bank: &mut SpinlockBank) -> (lock: Self)
        requires
            N < SPINLOCK_COUNT,
            claim_granted(old(bank).held(), N as nat),
        ensures
            final(bank).held() == held_after_claim(old(bank).held(), N as nat),
    {
        loop
            invariant
                N < SPINLOCK_COUNT,
                bank.held() == old(bank).held(),
                claim_granted(bank.held(), N as nat),
            decreases 0nat,
        {
            if let Some(lock) = Self::try_claim(bank) {
                return lock;
            }
        }
    }

    /// Gives lock `N` back to the bank.
    pub fn release(self, bank: &mut SpinlockBank)
        ensures
            final(bank).held() == held_after_release(old(bank).held(), N as nat),
    {
        proof {
            use_type_invariant(&self);
        }
        let shift: u32 = N as u32;
        bank.bits = bank.bits & !(1u32 << shift);
        proof {
            assert forall|id: nat|
                bank.held().contains(id) == held_after_release(
                    old(bank).held(),
                    N as nat,
                ).contains(id) by {
                if id < 32 {
                    lemma_bit_after_clear(old(bank).bits, shift, id as u32);
                }
            }
            assert(bank.held() =~= held_after_release(old(bank).held(), N as nat));
        }
    }
}

/// One step of a run against the bank: lock `id` is asked for once, or a
/// handle of lock `id` is given back.
pub enum LockEvent {
    Claim { id: nat },
    Release { id: nat },
}

/// The locks that are taken after the run `events`, which starts with the
/// locks in `start` taken by others.
pub open spec fn held_after_run(start: Set<nat>, events: Seq<LockEvent>) -> Set<nat>
    decreases events.len(),
{
    if events.len() == 0 {
        start
    } else {
        let before = held_after_run(start, events.drop_last());
        match events.last() {
            LockEvent::Claim { id } => held_after_claim(before, id),
            LockEvent::Release { id } => held_after_release(before, id),
        }
    }
}

/// How many handles of lock `id` are alive after the run: the claims of `id`
/// that were granted, less the handles of `id` that were given back.
pub open spec fn live_handles(start: Set<nat>, events: Seq<LockEvent>, id: nat) -> int
    decreases events.len(),
{
    if events.len() == 0 {
        0
    } else {
        let before = events.drop_last();
        live_handles(start, before, id) + match events.last() {
            LockEvent::Claim { id: asked } => if asked == id && claim_granted(
                held_after_run(start, before),
                id,
            ) {
                1int
            } else {
                0int
            },
            LockEvent::Release { id: given } => if given == id {
                -1int
            } else {
                0int
            },
        }
    }
}

/// Whether every release in the run gives back a handle that is alive. A
/// handle cannot be copied or made up, so every run of a program is such.
pub open spec fn releases_own_handles(start: Set<nat>, events: Seq<LockEvent>) -> bool
    decreases events.len(),
{
    events.len() == 0 || {
        let before = events.drop_last();
        &&& releases_own_handles(start, before)
        &&& events.last() matches LockEvent::Release { id } ==> live_handles(start, before, id)
            >= 1
    }
}

/// At no point of a run is more than one handle of a lock alive, and while
/// one is alive every claim of that lock is refused. A guard owns one handle,
/// so the same holds of the guards of all mutexes of one lock id.
pub proof fn lemma_at_most_one_live_handle(start: Set<nat>, events: Seq<LockEvent>, id: nat)
    requires
        releases_own_handles(start, events),
    ensures
        0 <= live_handles(start, events, id) <= 1,
        live_handles(start, events, id) == 1 ==> !claim_granted(
            held_after_run(start, events),
            id,
        ),
    decreases events.len(),
{
    if events.len() > 0 {
        lemma_at_most_one_live_handle(start, events.drop_last(), id);
    }
}

/// Once lock `id` has been asked for, by a blocking claim or by a try, a
/// further try is refused until the lock is given back.
pub proof fn lemma_claim_refused_after_claim(held: Set<nat>, id: nat)
    ensures
        !claim_granted(held_after_claim(held, id), id),
{
}

/// Once lock `id` has been given back, the next claim of it is granted.
pub proof fn lemma_claim_granted_after_release(held: Set<nat>, id: nat)
    ensures
        claim_granted(held_after_release(held, id), id),
{
}

/// Claims and releases of one lock leave every other lock as it was.
pub proof fn lemma_other_locks_untouched(held: Set<nat>, id: nat, other: nat)
    requires
        other != id,
    ensures
        claim_granted(held_after_claim(held, id), other) == claim_granted(held, other),
        claim_granted(held_after_release(held, id), other) == claim_granted(held, other),
{
}

} // verus!
