//! Contiguous, length-exact element storage with explicit control over
//! initialisation, resizing and release.
//!
//! Each buffer is modelled as a sequence of slots, one per element. A slot is
//! either uninitialised (`None`) or holds a value (`Some`). Element types of
//! zero size occupy no storage: a buffer of them reports the largest
//! representable length and never allocates.

pub mod array;
pub mod buffer;
pub mod layout;
pub mod zeroed;

pub use array::Array;
pub use buffer::Buffer;
pub use layout::{alloc_guard, checked_alloc_size, CapacityOverflow};
pub use zeroed::Zeroable;
