//! The laws of the indicator core, stated over the handle's transition
//! functions and proved once for every handle.

use vstd::prelude::*;

use crate::handle::TaskbarProgress;
use crate::state::{ProgressState, RemoteCallOutcome, SessionOutcome};

verus! {

/// Every outcome of the acquisition sequence yields a well-formed handle
/// that reports no progress and is hidden: a fresh indicator never appears
/// until it is explicitly shown.
pub proof fn lemma_fresh_handle_hidden(
    window: usize,
    session: SessionOutcome,
    remote_obtained: bool,
)
    ensures
        TaskbarProgress::spec_from_acquisition(window, session, remote_obtained).current_state
            is NoProgress,
        !TaskbarProgress::spec_from_acquisition(window, session, remote_obtained).is_active,
        TaskbarProgress::spec_from_acquisition(window, session, remote_obtained).wf(),
{
}

/// While the handle is inactive, state and value requests change nothing at
/// all: the cache, the active flag and the lifecycle flags keep their values.
pub proof fn lemma_inactive_ignores_requests(
    t: TaskbarProgress,
    new_state: ProgressState,
    completed: u64,
    total: u64,
)
    requires
        !t.is_active,
    ensures
        t.after_set_state(new_state) == t,
        t.after_set_value(completed, total) == t,
{
}

/// The governing suppression invariant: while the handle is inactive, no request
/// ever needs a remote round trip, so no remote call is ever issued for a
/// hidden indicator.
pub proof fn lemma_inactive_blocks_remote_calls(
    t: TaskbarProgress,
    new_state: ProgressState,
    completed: u64,
    total: u64,
)
    requires
        !t.is_active,
    ensures
        !t.state_call_wanted(new_state),
        !t.value_call_wanted(completed, total),
{
}

/// Setting a concrete fill ratio while the indicator is shown commits the
/// ratio and promotes the "no progress" and "indeterminate" display modes
/// to a proportional bar.  For an inert handle the request itself commits;
/// for a held remote indicator the same holds of every accepted round trip.
pub proof fn lemma_value_promotes_pending_modes(
    t: TaskbarProgress,
    completed: u64,
    total: u64,
)
    requires
        t.current_state is NoProgress || t.current_state is Indeterminate,
    ensures
        t.is_active && t.remote is Absent ==> {
            &&& t.after_set_value(completed, total).current_state is Normal
            &&& t.after_set_value(completed, total).completed == completed
            &&& t.after_set_value(completed, total).total == total
        },
        t.after_value_outcome(completed, total, RemoteCallOutcome::Accepted).current_state
            is Normal,
{
}

/// The paused and error overrides are sticky: no value request and no value
/// round trip, accepted or rejected, ever moves the display mode away from
/// them — only an explicit state change clears them.
pub proof fn lemma_override_modes_survive_values(
    t: TaskbarProgress,
    completed: u64,
    total: u64,
    outcome: RemoteCallOutcome,
)
    requires
        t.current_state is Paused || t.current_state is Error,
    ensures
        t.after_set_value(completed, total).current_state == t.current_state,
        t.after_value_outcome(completed, total, outcome).current_state == t.current_state,
{
}

/// Hiding a shown inert indicator resets the displayed state to "no
/// progress" and deactivates the handle; afterwards every state and value request
/// is ignored until the indicator is shown again.
pub proof fn lemma_hide_resets_and_deactivates(
    t: TaskbarProgress,
    new_state: ProgressState,
    completed: u64,
    total: u64,
)
    requires
        t.is_active,
        t.remote is Absent,
    ensures
        t.after_hide().current_state is NoProgress,
        !t.after_hide().is_active,
        t.after_hide().after_set_state(new_state) == t.after_hide(),
        t.after_hide().after_set_value(completed, total) == t.after_hide(),
        t.after_hide().after_show().is_active,
{
}

/// Release is idempotent: a second release finds nothing left to give up
/// and leaves the handle exactly as the first one did, and release
/// preserves well-formedness.
pub proof fn lemma_release_idempotent(t: TaskbarProgress)
    ensures
        t.after_release().after_release() == t.after_release(),
        t.wf() ==> t.after_release().wf(),
{
}

} // verus!
