//! Synchronization primitives for dual-core microcontrollers with a bank of
//! hardware spinlocks: a spinlock-backed mutex, and ownership tokens that
//! stand for "this code runs on that core" or "inside that interrupt handler".
//!
//! The state of the lock bank and of the per-core claim flags is passed to
//! the operations explicitly, so that every contract can say how it changes.

pub mod core_guard;
mod flag;
pub mod isr_guard;
pub mod mutex;
pub(crate) mod sealed_trait;
pub mod spinlock;
