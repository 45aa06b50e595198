//! The atomic flag behind a guarded claim, and what is taken on trust about it.

use portable_atomic::AtomicBool;
use portable_atomic::Ordering;
use vstd::prelude::*;

verus! {

/// `portable_atomic::AtomicBool`, as a value that is carried around unopened.
#[verifier::external_type_specification]
#[verifier::external_body]
pub struct ExAtomicBool(AtomicBool);

/// The boolean that a flag holds.
pub uninterp spec fn flag_value(flag: AtomicBool) -> bool;

/// `AtomicBool::new`: a new flag, which holds `value`.
#[verifier::external_body]
pub(crate) fn new_flag(value: bool) -> (flag: AtomicBool)
    ensures
        flag_value(flag) == value,
{
    AtomicBool::new(value)
}

/// `AtomicBool::compare_exchange`, with the orderings `AcqRel` on success and
/// `Acquire` on failure, on a flag that the caller alone can reach.
///
/// If the flag holds `current` it is set to `new` and the call returns
/// `Ok(current)`. Otherwise the flag keeps its value, which the call returns
/// as `Err`. The exclusive borrow rules out a change by anyone else between
/// the comparison and the store.
#[verifier::external_body]
pub(crate) fn compare_exchange(flag: &mut AtomicBool, current: bool, new: bool) -> (res: Result<
    bool,
    bool,
>)
    ensures
        res is Ok <==> flag_value(*old(flag)) == current,
        res matches Ok(previous) ==> previous == current && flag_value(*final(flag)) == new,
        res matches Err(previous) ==> previous == flag_value(*old(flag)) && flag_value(
            *final(flag),
        ) == previous,
{
    flag.compare_exchange(current, new, Ordering::AcqRel, Ordering::Acquire)
}

} // verus!
