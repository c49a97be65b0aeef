//! The error handed back when an interaction with the wrapped object fails.

use vstd::prelude::*;

verus! {

/// Why an interaction against the wrapped object failed.
///
/// The three variants keep the three origins of failure apart, so a caller
/// can tell "never ran" from "ran and failed": a panic in the interaction
/// closure, a cancellation by the scheduling layer before the closure ever
/// ran, and a domain error `E` returned by the closure itself.
#[derive(Debug)]
pub enum InteractError<E> {
    /// The interaction closure panicked while it held the lock.  The lock is
    /// poisoned afterwards; the wrapped object survives and stays
    /// recoverable.  The panic's payload stays with the driver that caught
    /// it.
    Panic,
    /// The scheduling layer cancelled the worker task before it ran.  The
    /// lock was never taken, so nothing about the wrapper changed.
    Aborted,
    /// The interaction closure ran to completion and returned this backend
    /// error; the wrapper passes it through untouched.
    Backend(E),
}

} // verus!
