//! The private half of the token traits.

use vstd::prelude::*;

verus! {

/// Supertrait of the token traits. The module is private to the crate, so no
/// type outside the crate can become a token.
pub trait Sealed {}

} // verus!
