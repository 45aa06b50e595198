//! Helper types for enforcing ownership of static mutable data by interrupt
//! service routines.

use crate::sealed_trait::Sealed;
use vstd::prelude::*;

pub mod rp2040;
pub mod rp235x;

verus! {

/// A helper trait for interrupt service routines to allow safe lock-free
/// access to static mutable data.
pub trait IsrToken: Sealed {
    /// The interrupt lines of the chip family that the token belongs to.
    type Interrupt;

    /// The interrupt line that the handler is bound to.
    const IRQ: Self::Interrupt;
}

} // verus!
