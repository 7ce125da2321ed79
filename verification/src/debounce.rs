//! The state debouncer: the one place that decides whether a reading is news.

use vstd::prelude::*;

verus! {

/// What a reading amounts to while `previous` is the remembered lock state:
/// the reading itself when it differs, nothing when it repeats.
pub open spec fn changed(previous: bool, observed: bool) -> Option<bool> {
    if observed != previous {
        Some(observed)
    } else {
        None
    }
}

/// Compares a new reading with the remembered lock state (`true` is locked).
///
/// Returns `Some(observed)` exactly when the reading differs from `previous`.
pub fn update(previous: bool, observed: bool) -> (change: Option<bool>)
    ensures
        change == changed(previous, observed),
        change is Some <==> observed != previous,
        change is Some ==> change == Some(observed),
{
    if observed != previous {
        Some(observed)
    } else {
        None
    }
}

/// A repeated reading is never a change, and a reading opposite to the
/// remembered state always is, carrying the new state.
pub proof fn repeat_is_silent_and_flip_is_change(state: bool)
    ensures
        changed(state, state) is None,
        changed(state, !state) == Some(!state),
        changed(true, false) == Some(false),
        changed(false, true) == Some(true),
{
}

} // verus!
