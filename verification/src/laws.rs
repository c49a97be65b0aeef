//! The protocol's laws, stated over the spec-level step functions that the
//! wrapper's contracts use and proved once for every wrapper state.

use crate::error::InteractError;
use crate::wrapper::classified;
use crate::wrapper::report_of;
use crate::wrapper::state_after;
use crate::wrapper::InteractOutcome;
use crate::wrapper::WrapperView;
use vstd::prelude::*;

verus! {

/// A panicking interaction poisons the lock at once, is reported to the
/// caller as [`InteractError::Panic`], and leaves the object exactly as the
/// panicking closure left it — poison never destroys the wrapped object.  A
/// later interaction proceeds from precisely that state, so a caller that
/// tolerates poison can still look at what the panic left behind.
pub proof fn lemma_panic_poisons_yet_preserves_object<T, R, E>(
    s: WrapperView<T>,
    t: T,
    next: InteractOutcome<T, R, E>,
)
    ensures
        state_after(s, InteractOutcome::<T, R, E>::Panicked(t)) == (WrapperView {
            obj: t,
            poisoned: true,
        }),
        classified(report_of(InteractOutcome::<T, R, E>::Panicked(t))) == Err::<
            R,
            InteractError<E>,
        >(InteractError::Panic),
        state_after(state_after(s, InteractOutcome::<T, R, E>::Panicked(t)), next) == state_after(
            WrapperView { obj: t, poisoned: true },
            next,
        ),
{
}

/// Exactly the panicking interactions poison the lock: after any scheduled
/// interaction the poison flag is set precisely when it was set before or
/// this closure panicked, and the caller is told of a panic precisely when
/// one happened.  In particular, neither a completed nor a cancelled
/// interaction ever sets or clears the flag.
pub proof fn lemma_poison_characterized<T, R, E>(
    s: WrapperView<T>,
    outcome: InteractOutcome<T, R, E>,
)
    ensures
        state_after(s, outcome).poisoned == (s.poisoned || outcome is Panicked),
        (classified(report_of(outcome)) == Err::<R, InteractError<E>>(InteractError::Panic))
            <==> outcome is Panicked,
{
}

/// A cancelled interaction leaves the wrapper exactly as it was — in
/// particular the lock is not left held and the poison flag is untouched —
/// so the next interaction proceeds just as if the cancelled one had never
/// been scheduled.
pub proof fn lemma_aborted_changes_nothing<T, R, E>(
    s: WrapperView<T>,
    next: InteractOutcome<T, R, E>,
)
    ensures
        state_after(s, InteractOutcome::<T, R, E>::Aborted) == s,
        classified(report_of(InteractOutcome::<T, R, E>::Aborted)) == Err::<R, InteractError<E>>(
            InteractError::Aborted,
        ),
        state_after(state_after(s, InteractOutcome::<T, R, E>::Aborted), next) == state_after(
            s,
            next,
        ),
{
}

/// The report for one serialized increment of a counter: the closure found
/// the counter at `c`, stepped it to `c + 1`, and returned the new value.
pub open spec fn increment_outcome<E>(c: u64) -> InteractOutcome<u64, u64, E> {
    InteractOutcome::Completed((c + 1) as u64, Ok((c + 1) as u64))
}

/// The wrapper state and the list of returned values after `k` serialized
/// increments of a counter wrapper that starts in state `s`.
pub open spec fn run_increments<E>(s: WrapperView<u64>, k: nat) -> (WrapperView<u64>, Seq<
    Result<u64, InteractError<E>>,
>)
    decreases k,
{
    if k == 0 {
        (s, Seq::<Result<u64, InteractError<E>>>::empty())
    } else {
        let prev = run_increments::<E>(s, (k - 1) as nat);
        let event = increment_outcome::<E>(prev.0.obj);
        (state_after(prev.0, event), prev.1.push(classified(report_of(event))))
    }
}

/// Serialized increments never interleave: starting from a counter at
/// `s.obj`, `k` interactions that each step the counter by one return
/// exactly the values `s.obj + 1, ..., s.obj + k`, in order, with no
/// duplicates and no gaps, and they leave the counter at `s.obj + k` with
/// the poison flag untouched.
pub proof fn lemma_increments_serialize<E>(s: WrapperView<u64>, k: nat)
    requires
        s.obj + k <= u64::MAX,
    ensures
        run_increments::<E>(s, k).0 == (WrapperView {
            obj: (s.obj + k) as u64,
            poisoned: s.poisoned,
        }),
        run_increments::<E>(s, k).1.len() == k,
        forall|i: int|
            0 <= i < k ==> run_increments::<E>(s, k).1[i] == Ok::<u64, InteractError<E>>(
                (s.obj + i + 1) as u64,
            ),
        forall|i: int, j: int|
            0 <= i < j < k ==> run_increments::<E>(s, k).1[i] != run_increments::<E>(s, k).1[j],
    decreases k,
{
    if k != 0 {
        lemma_increments_serialize::<E>(s, (k - 1) as nat);
        let prev = run_increments::<E>(s, (k - 1) as nat);
        assert forall|i: int| 0 <= i < k implies run_increments::<E>(s, k).1[i] == Ok::<
            u64,
            InteractError<E>,
        >((s.obj + i + 1) as u64) by {
            if i < k - 1 {
                assert(run_increments::<E>(s, k).1[i] == prev.1[i]);
            }
        }
        assert forall|i: int, j: int| 0 <= i < j < k implies run_increments::<E>(s, k).1[i]
            != run_increments::<E>(s, k).1[j] by {
            assert(run_increments::<E>(s, k).1[i] == Ok::<u64, InteractError<E>>(
                (s.obj + i + 1) as u64,
            ));
            assert(run_increments::<E>(s, k).1[j] == Ok::<u64, InteractError<E>>(
                (s.obj + j + 1) as u64,
            ));
        }
    }
}

} // verus!
