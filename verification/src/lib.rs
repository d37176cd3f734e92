//! A minimal event-driven I/O runtime built on one-shot readiness
//! notification: an interest registry over descriptors, a poller, a reactor
//! that forwards ready event identifiers, and an executor that dispatches
//! them to registered handlers.
//!
//! The library performs no system call itself. Every operation that needs
//! the kernel is split in two: a function that decides which call to make,
//! and a function that takes the kernel's answer and updates the state.

use vstd::prelude::*;

pub mod context;
pub mod executor;
pub mod poll;
pub mod reactor;

verus! {

/// Correlates a readiness notification with the handler registered for it.
pub type EventId = usize;

/// A raw file descriptor, as the kernel hands it out.
pub type RawFd = i32;

} // verus!
