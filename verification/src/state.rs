//! The plain values the indicator core works over: display states, the
//! outcomes of the platform round trips, and the promotion rule applied
//! when a concrete fill ratio is set.

use vstd::prelude::*;

verus! {

/// The display mode of the taskbar indicator for one window.
#[derive(Clone, Copy, Debug, PartialEq, Eq, Structural)]
pub enum ProgressState {
    /// No indicator is shown.
    NoProgress,
    /// A pulsing indicator with no concrete ratio.
    Indeterminate,
    /// A proportional bar driven by the fill ratio.
    Normal,
    /// A paused tint; persists until an explicit state change clears it.
    Paused,
    /// An error tint; persists until an explicit state change clears it.
    Error,
}

/// Outcome of opening the per-thread broker session.  Finding the session
/// already open counts as success and still obliges a paired close.
#[derive(Clone, Copy, Debug, PartialEq, Eq, Structural)]
pub enum SessionOutcome {
    /// The session was opened by this call.
    NewlyOpened,
    /// The session was already open on this thread.
    AlreadyOpen,
    /// The session could not be opened.
    Failed,
}

/// Whether a handle holds the remote indicator object.
#[derive(Clone, Copy, Debug, PartialEq, Eq, Structural)]
pub enum RemoteLink {
    /// No remote indicator: the inert configuration.  Requests are accepted
    /// locally, with nothing externally observable.
    Absent,
    /// A remote indicator object is held by the embedding shell layer, which
    /// performs the round trips and records their outcomes.
    Held,
}

/// Acknowledgment of one remote round trip.
#[derive(Clone, Copy, Debug, PartialEq, Eq, Structural)]
pub enum RemoteCallOutcome {
    /// The shell accepted the request; the cache may commit it.
    Accepted,
    /// The shell rejected the request; the cache keeps the last-known value.
    Rejected,
}

/// The display state after the shell accepts a concrete fill ratio: the
/// "no ratio" and "unknown ratio" modes are promoted to a proportional bar,
/// while the paused and error overrides persist.
pub open spec fn promoted(s: ProgressState) -> ProgressState {
    if s is NoProgress || s is Indeterminate {
        ProgressState::Normal
    } else {
        s
    }
}

/// Applies [`promoted`] to a display state.
pub fn promote(s: ProgressState) -> (r: ProgressState)
    ensures
        r == promoted(s),
{
    match s {
        ProgressState::NoProgress => ProgressState::Normal,
        ProgressState::Indeterminate => ProgressState::Normal,
        _ => s,
    }
}

} // verus!
