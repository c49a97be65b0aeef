//! The wrapper's lifecycle and interaction protocol.

use crate::error::InteractError;
use vstd::prelude::*;

verus! {

/// What the blocking-task executor reports back over its result channel for
/// one scheduled worker run.
pub enum TaskReport<R, E> {
    /// The worker ran the closure to completion; this is the closure's own
    /// result.
    Completed(Result<R, E>),
    /// The closure panicked; the payload stays with the driver that caught
    /// it.
    Panicked,
    /// The scheduling layer cancelled the worker task before it ran.
    Aborted,
}

/// The caller-visible outcome for one executor report: a panic becomes
/// [`InteractError::Panic`], a cancellation [`InteractError::Aborted`], a
/// backend error is wrapped in [`InteractError::Backend`], and a success is
/// handed through unchanged.
pub open spec fn classified<R, E>(report: TaskReport<R, E>) -> Result<R, InteractError<E>> {
    match report {
        TaskReport::Completed(res) => match res {
            Ok(v) => Ok(v),
            Err(e) => Err(InteractError::Backend(e)),
        },
        TaskReport::Panicked => Err(InteractError::Panic),
        TaskReport::Aborted => Err(InteractError::Aborted),
    }
}

/// Maps the executor's report onto the outcome the caller of `interact`
/// sees, exactly as [`classified`] says.
pub fn classify_report<R, E>(report: TaskReport<R, E>) -> (r: Result<R, InteractError<E>>)
    ensures
        r == classified(report),
{
    match report {
        TaskReport::Completed(res) => match res {
            Ok(v) => Ok(v),
            Err(e) => Err(InteractError::Backend(e)),
        },
        TaskReport::Panicked => Err(InteractError::Panic),
        TaskReport::Aborted => Err(InteractError::Aborted),
    }
}

/// What one scheduled interaction did, as the driver of the executor reports
/// it back.  Where the closure actually ran (`Completed`, `Panicked`) the
/// report also carries the object as the closure left it: the worker holds
/// the lock for exactly the closure's run, so that value is the interaction's
/// whole effect on the object.
pub enum InteractOutcome<T, R, E> {
    /// The closure ran to completion: the object as the closure left it, and
    /// the closure's own result.
    Completed(T, Result<R, E>),
    /// The closure panicked while it held the lock; the object is in
    /// whatever state the closure left it in.
    Panicked(T),
    /// The scheduling layer cancelled the worker task before it ran; the
    /// object was never touched.
    Aborted,
}

/// The state of a [`SyncWrapper`] as its contracts see it: the wrapped
/// object, and whether the lock has been poisoned by a panicking
/// interaction.
pub struct WrapperView<T> {
    /// The wrapped object.
    pub obj: T,
    /// Whether a panic has been observed while the lock was held.
    pub poisoned: bool,
}

/// The executor report inside an interaction's outcome, without the object:
/// what the asynchronous caller sees come back over the result channel.
pub open spec fn report_of<T, R, E>(outcome: InteractOutcome<T, R, E>) -> TaskReport<R, E> {
    match outcome {
        InteractOutcome::Completed(_, res) => TaskReport::Completed(res),
        InteractOutcome::Panicked(_) => TaskReport::Panicked,
        InteractOutcome::Aborted => TaskReport::Aborted,
    }
}

/// The wrapper's state after one scheduled interaction: the object becomes
/// whatever the closure left behind, a panic sets the poison flag, and a
/// cancellation changes nothing at all.
pub open spec fn state_after<T, R, E>(
    s: WrapperView<T>,
    outcome: InteractOutcome<T, R, E>,
) -> WrapperView<T> {
    match outcome {
        InteractOutcome::Completed(t, _) => (WrapperView { obj: t, poisoned: s.poisoned }),
        InteractOutcome::Panicked(t) => (WrapperView { obj: t, poisoned: true }),
        InteractOutcome::Aborted => s,
    }
}

/// Wrapper for an object that only offers blocking operations, which must
/// therefore run on a dedicated worker thread rather than on the
/// asynchronous scheduler.
///
/// The wrapper owns the object behind an exclusive, poison-aware lock and
/// serializes every access: construction, interactions and teardown each
/// hold the lock for the whole of their critical section, and a panic inside
/// an interaction marks the lock poisoned without destroying the object.
/// The blocking side — scheduling worker tasks, catching panics, observing
/// cancellations — is the driver's business; the driver reports what
/// happened as an [`InteractOutcome`] and the wrapper accounts for it here.
#[must_use]
pub struct SyncWrapper<T, E> {
    obj: T,
    poisoned: bool,
    _error: core::marker::PhantomData<E>,
}

impl<T, E> View for SyncWrapper<T, E> {
    type V = WrapperView<T>;

    closed spec fn view(&self) -> WrapperView<T> {
        WrapperView { obj: self.obj, poisoned: self.poisoned }
    }
}

impl<T, E> SyncWrapper<T, E> {
    /// Wraps what the factory produced: a fresh, unpoisoned wrapper around
    /// the object on success, the factory's own error otherwise — so an
    /// object only ever comes to exist inside a wrapper that will tear it
    /// down.  A factory that panicked never reaches this point: the driver
    /// propagates such a panic to the constructing caller instead of
    /// building a wrapper.
    pub fn new(factory_result: Result<T, E>) -> (r: Result<Self, E>)
        ensures
            factory_result matches Ok(obj) ==> r matches Ok(w) && w@ == (WrapperView {
                obj,
                poisoned: false,
            }),
            factory_result matches Err(e) ==> r matches Err(e2) && e2 == e,
    {
        match factory_result {
            Ok(obj) => Ok(
                SyncWrapper { obj, poisoned: false, _error: core::marker::PhantomData },
            ),
            Err(e) => Err(e),
        }
    }

    /// Accounts for one scheduled interaction: the state changes exactly as
    /// [`state_after`] says, and the caller gets the report classified by
    /// [`classified`] — the closure's own result, or which of the three ways
    /// the interaction failed.
    pub fn interact<R>(&mut self, outcome: InteractOutcome<T, R, E>) -> (r: Result<
        R,
        InteractError<E>,
    >)
        ensures
            final(self)@ == state_after(old(self)@, outcome),
            r == classified(report_of(outcome)),
    {
        match outcome {
            InteractOutcome::Completed(t, res) => {
                self.obj = t;
                match res {
                    Ok(v) => Ok(v),
                    Err(e) => Err(InteractError::Backend(e)),
                }
            },
            InteractOutcome::Panicked(t) => {
                self.obj = t;
                self.poisoned = true;
                Err(InteractError::Panic)
            },
            InteractOutcome::Aborted => Err(InteractError::Aborted),
        }
    }

    /// The handle to the wrapped object.  Anything done with it that can
    /// block must itself be kept off the asynchronous scheduler; the wrapper
    /// cannot police the handle once it is handed out.
    pub fn inner_obj(&self) -> (r: &T)
        ensures
            *r == self@.obj,
    {
        &self.obj
    }

    /// Whether the lock has been poisoned, that is, whether some interaction
    /// closure panicked while it held the lock.  A pure query with no side
    /// effect: it gives the caller what it needs to decide between keeping
    /// the wrapper and discarding it.
    pub fn is_mutex_poisoned(&self) -> (r: bool)
        ensures
            r == self@.poisoned,
    {
        self.poisoned
    }

    /// Clears the poison flag while leaving the object untouched, for a
    /// caller that has looked at the object after a panic and found it still
    /// consistent.
    pub fn clear_poison(&mut self)
        ensures
            final(self)@ == (WrapperView { obj: old(self)@.obj, poisoned: false }),
    {
        self.poisoned = false;
    }

    /// Tears the wrapper down and hands the wrapped object back, so that the
    /// object's own — possibly blocking — destructor can run on a worker
    /// thread.  The object is recovered whatever the poison state: a
    /// poisoned lock never orphans it.  Consuming the wrapper is what makes
    /// the teardown happen exactly once.
    pub fn dispose(self) -> (r: T)
        ensures
            r == self@.obj,
    {
        self.obj
    }
}

} // verus!
