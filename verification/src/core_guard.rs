//! Ownership tokens for the two cores, and a cell that only the owner of a
//! core's token can reach.

use crate::flag::compare_exchange;
use crate::flag::flag_value;
use crate::flag::new_flag;
use crate::sealed_trait::Sealed;
use core::marker::PhantomData;
use portable_atomic::AtomicBool;
use std::rc::Rc;
use vstd::prelude::*;

verus! {

/// One of the two cores.
#[derive(Clone, Copy, Debug, PartialEq, Eq, Structural)]
pub enum CoreId {
    Core0,
    Core1,
}

/// Whether a guarded claim of `core`'s token is granted while the tokens of
/// the cores in `claimed` have been handed out.
pub open spec fn token_granted(claimed: Set<CoreId>, core: CoreId) -> bool {
    !claimed.contains(core)
}

/// The cores whose token has been handed out once `core`'s token has been
/// asked for, granted or not.
pub open spec fn claimed_after(claimed: Set<CoreId>, core: CoreId) -> Set<CoreId> {
    claimed.insert(core)
}

/// The claim flags of the guarded policy, one per core. A flag is set by the
/// first claim of its core's token, and nothing clears it.
pub struct CoreClaims {
    core0: AtomicBool,
    core1: AtomicBool,
}

impl CoreClaims {
    /// The cores whose token has been handed out.
    pub closed spec fn claimed(&self) -> Set<CoreId> {
        Set::new(
            |core: CoreId|
                match core {
                    CoreId::Core0 => flag_value(self.core0),
                    CoreId::Core1 => flag_value(self.core1),
                },
        )
    }

    /// Flags with no token handed out.
    pub fn new() -> (claims: Self)
        ensures
            claims.claimed() == Set::<CoreId>::empty(),
    {
        let claims = CoreClaims { core0: new_flag(false), core1: new_flag(false) };
        assert(claims.claimed() =~= Set::<CoreId>::empty());
        claims
    }
}

/// The cores whose token has been handed out after the guarded claims
/// `attempts`, made in that order on flags that started clear.
pub open spec fn claimed_after_all(attempts: Seq<CoreId>) -> Set<CoreId>
    decreases attempts.len(),
{
    if attempts.len() == 0 {
        Set::empty()
    } else {
        claimed_after(claimed_after_all(attempts.drop_last()), attempts.last())
    }
}

/// Guarded claims hand out the token of the cores that were asked for, and
/// of no other: nothing takes a core out of the set again.
pub proof fn lemma_claimed_are_attempted(attempts: Seq<CoreId>, core: CoreId)
    ensures
        claimed_after_all(attempts).contains(core) <==> attempts.contains(core),
    decreases attempts.len(),
{
    if attempts.len() > 0 {
        let before = attempts.drop_last();
        lemma_claimed_are_attempted(before, core);
        assert(attempts =~= before.push(attempts.last()));
    }
}

/// Of a run of guarded claims on flags that started clear, the first claim
/// of a core's token is granted and every later claim of it is refused.
pub proof fn lemma_only_first_claim_granted(attempts: Seq<CoreId>, i: int)
    requires
        0 <= i < attempts.len(),
    ensures
        token_granted(claimed_after_all(attempts.take(i)), attempts[i]) <==> !attempts.take(
            i,
        ).contains(attempts[i]),
{
    lemma_claimed_are_attempted(attempts.take(i), attempts[i]);
}

/// A marker trait that allows type-generic ownership tokens.
pub trait SingleCore: Sealed + Sized {
    /// The core that the token stands for.
    const ID: CoreId;

    /// Makes the token of the core that the caller runs on.
    ///
    /// `current` is the core that the hardware reports. Whoever holds the
    /// token is trusted to run on `Self::ID`, so the two have to agree.
    fn steal(current: CoreId) -> (token: Self)
        requires
            current == Self::ID,
    ;
}

/// Guarded claim: sets the flag if it is clear. The token is handed out if
/// and only if this call set the flag.
fn try_claim_inner<T: SingleCore>(b: &mut AtomicBool) -> (token: Option<T>)
    ensures
        token is Some <==> !flag_value(*old(b)),
        flag_value(*final(b)),
{
    if compare_exchange(b, false, true).is_ok() {
        // The flag was clear and this call set it: the claim is the caller's
        // alone, and it vouches for the core in place of the hardware.
        Some(T::steal(T::ID))
    } else {
        None
    }
}

/// Unguarded claim: the token is handed out if and only if the caller runs on
/// the token's core.
fn try_new_inner<T: SingleCore>(current: CoreId) -> (token: Option<T>)
    ensures
        token is Some <==> current == T::ID,
{
    if current == T::ID {
        Some(T::steal(current))
    } else {
        None
    }
}

/// A token that can be used to enforce ownership and safety invariants of
/// core 0 through the type system.
pub struct Core0Token {
    _marker: PhantomData<Rc<()>>,
}

impl Sealed for Core0Token {}

impl SingleCore for Core0Token {
    const ID: CoreId = CoreId::Core0;

    fn steal(current: CoreId) -> (token: Self) {
        Core0Token { _marker: PhantomData }
    }
}

impl Core0Token {
    /// Try to take the ownership token under the guarded policy.
    /// If it is already claimed, this function will return `None`.
    pub fn try_claim(claims: &mut CoreClaims) -> (token: Option<Self>)
        ensures
            token is Some <==> token_granted(old(claims).claimed(), CoreId::Core0),
            final(claims).claimed() == claimed_after(old(claims).claimed(), CoreId::Core0),
    {
        let token = try_claim_inner(&mut claims.core0);
        assert(claims.claimed() =~= claimed_after(old(claims).claimed(), CoreId::Core0));
        token
    }

    /// Try to create a new ownership token under the unguarded policy.
    /// Succeeds if called on the right core.
    pub fn try_new(current: CoreId) -> (token: Option<Self>)
        ensures
            token is Some <==> current == CoreId::Core0,
    {
        try_new_inner(current)
    }
}

/// A token that can be used to enforce ownership and safety invariants of
/// core 1 through the type system.
pub struct Core1Token {
    _marker: PhantomData<Rc<()>>,
}

impl Sealed for Core1Token {}

impl SingleCore for Core1Token {
    const ID: CoreId = CoreId::Core1;

    fn steal(current: CoreId) -> (token: Self) {
        Core1Token { _marker: PhantomData }
    }
}

impl Core1Token {
    /// Try to take the ownership token under the guarded policy.
    /// If it is already claimed, this function will return `None`.
    pub fn try_claim(claims: &mut CoreClaims) -> (token: Option<Self>)
        ensures
            token is Some <==> token_granted(old(claims).claimed(), CoreId::Core1),
            final(claims).claimed() == claimed_after(old(claims).claimed(), CoreId::Core1),
    {
        let token = try_claim_inner(&mut claims.core1);
        assert(claims.claimed() =~= claimed_after(old(claims).claimed(), CoreId::Core1));
        token
    }

    /// Try to create a new ownership token under the unguarded policy.
    /// Succeeds if called on the right core.
    pub fn try_new(current: CoreId) -> (token: Option<Self>)
        ensures
            token is Some <==> current == CoreId::Core1,
    {
        try_new_inner(current)
    }
}

/// A lock-free cell for state that belongs to one core. It is written at most
/// once, and reaching it takes a reference to that core's token.
pub struct LocalCell<T, C> where C: SingleCore {
    data: Option<T>,
    _marker: PhantomData<C>,
}

impl<T, C> LocalCell<T, C> where C: SingleCore {
    /// The value, once the cell has been initialized.
    pub closed spec fn view(&self) -> Option<T> {
        self.data
    }

    /// Create a new uninitialized cell.
    pub fn new() -> (cell: Self)
        ensures
            cell@ is None,
    {
        LocalCell { data: None, _marker: PhantomData }
    }

    fn initialize_inner<F: FnOnce() -> T>(&mut self, init: F) -> (value: &T)
        requires
            old(self)@ is None ==> call_requires(init, ()),
        ensures
            final(self)@ == Some(*value),
            old(self)@ is Some ==> final(self)@ == old(self)@,
            old(self)@ is None ==> call_ensures(init, (), *value),
    {
        if self.data.is_none() {
            self.data = Some(init());
        }
        self.data.as_ref().unwrap()
    }

    /// Initialize the cell's data, providing proof of ownership.
    ///
    /// An empty cell takes the value that `init` returns. A cell that holds a
    /// value keeps it, and `init` is dropped without being called.
    pub fn get_or_init<F: FnOnce() -> T>(&mut self, _ctx: &C, init: F) -> (value: &T)
        requires
            old(self)@ is None ==> call_requires(init, ()),
        ensures
            final(self)@ == Some(*value),
            old(self)@ is Some ==> final(self)@ == old(self)@,
            old(self)@ is None ==> call_ensures(init, (), *value),
    {
        self.initialize_inner(init)
    }

    /// Get the inner value without checking if it is initialized.
    /// The cell has to be initialized.
    pub fn get_unchecked(&self, _ctx: &C) -> (value: &T)
        requires
            self@ is Some,
        ensures
            self@ == Some(*value),
    {
        self.data.as_ref().unwrap()
    }

    /// Get the inner value, or `None` if it has not been initialized yet.
    pub fn get(&self, _ctx: &C) -> (value: Option<&T>)
        ensures
            value is Some <==> self@ is Some,
            value matches Some(v) ==> self@ == Some(*v),
    {
        self.data.as_ref()
    }
}

} // verus!
