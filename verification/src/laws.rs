//! What holds of the counters over any number of comparisons.
//!
//! A comparison changes a counter in the way its `increment` states. The
//! functions here apply that change `n` times; the proofs say where that
//! leads.

use crate::counter::fetch_add_one;
use crate::toggle::{ToggleError, ToggleState};
use vstd::prelude::*;

verus! {

/// The count of an unsynchronized counter, or of a thread's own, after `n`
/// more comparisons.
pub open spec fn plain_count_after(count: nat, n: nat) -> nat
    decreases n,
{
    if n == 0 {
        count
    } else {
        plain_count_after(count, (n - 1) as nat) + 1
    }
}

/// The count of an atomic counter after `n` more comparisons.
pub open spec fn atomic_count_after(count: nat, n: nat) -> nat
    decreases n,
{
    if n == 0 {
        count
    } else {
        fetch_add_one(atomic_count_after(count, (n - 1) as nat))
    }
}

/// The state of a toggleable counter after `n` more comparisons.
pub open spec fn toggle_state_after(state: ToggleState, n: nat) -> ToggleState
    decreases n,
{
    if n == 0 {
        state
    } else {
        toggle_state_after(state, (n - 1) as nat).after_comparison()
    }
}

/// Counters of the four kinds that start from the same count and see the
/// same `n` comparisons end with the same count, which is `n` more than the
/// start. Every kind of wrapper gives the same order, so whoever consumes the
/// order, a sort for one, makes the same comparisons whatever the kind. The
/// count has to fit in 64 bits: beyond that an atomic counter starts again
/// from zero, and the others cannot go on.
pub proof fn counters_agree(start: nat, n: nat)
    requires
        start + n <= u64::MAX,
    ensures
        plain_count_after(start, n) == start + n,
        atomic_count_after(start, n) == plain_count_after(start, n),
        toggle_state_after(ToggleState { count: start, enabled: true }, n).count
            == plain_count_after(start, n),
        toggle_state_after(ToggleState { count: start, enabled: true }, n).enabled,
    decreases n,
{
    if n > 0 {
        counters_agree(start, (n - 1) as nat);
    }
}

/// While counting is suspended, any number of comparisons leaves the counter
/// as it was.
pub proof fn suspended_comparisons_leave_no_trace(state: ToggleState, n: nat)
    requires
        !state.enabled,
    ensures
        toggle_state_after(state, n) == state,
    decreases n,
{
    if n > 0 {
        suspended_comparisons_leave_no_trace(state, (n - 1) as nat);
    }
}

/// Suspend a counter that is counting, make any number of comparisons,
/// resume. The counter is then as it was before, and each of the comparisons
/// that follow is recorded on top of the old count.
pub proof fn counting_resumes_where_it_stopped(state: ToggleState, unseen: nat, seen: nat)
    requires
        state.enabled,
    ensures
        state.suspend() matches Ok(off) && toggle_state_after(off, unseen).resume() matches Ok(on)
            && on == state && toggle_state_after(on, seen).count == state.count + seen,
{
    let off = state.suspend()->Ok_0;
    suspended_comparisons_leave_no_trace(off, unseen);
    recorded_comparisons_add_up(state, seen);
}

/// While counting is enabled, `n` comparisons add `n` to the count.
pub proof fn recorded_comparisons_add_up(state: ToggleState, n: nat)
    requires
        state.enabled,
    ensures
        toggle_state_after(state, n) == (ToggleState { count: state.count + n, enabled: true }),
    decreases n,
{
    if n > 0 {
        recorded_comparisons_add_up(state, (n - 1) as nat);
    }
}

/// Counting can be suspended exactly when it is enabled and resumed exactly
/// when it is suspended. So once it is suspended, a second attempt to suspend
/// it fails, however many comparisons lie between; and to resume what is
/// counting fails, be it from the start or after a release.
pub proof fn one_guard_at_a_time(state: ToggleState, n: nat)
    ensures
        state.suspend() is Ok <==> state.enabled,
        state.resume() is Ok <==> !state.enabled,
        state.suspend() matches Ok(off) ==> toggle_state_after(off, n).suspend() matches Err(
            ToggleError::AlreadyOff,
        ),
        state.enabled ==> state.resume() matches Err(ToggleError::AlreadyOn),
        state.resume() matches Ok(on) ==> toggle_state_after(on, n).resume() matches Err(
            ToggleError::AlreadyOn,
        ),
{
    if state.enabled {
        let off = state.suspend()->Ok_0;
        suspended_comparisons_leave_no_trace(off, n);
    } else {
        let on = state.resume()->Ok_0;
        recorded_comparisons_add_up(on, n);
    }
}

} // verus!
