//! The progress-indicator handle: one per target window, wrapping the
//! active/inactive flag, the cache of the last accepted state and fill
//! ratio, and the lifecycle flags for the remote indicator object and the
//! broker session.

use vstd::prelude::*;

use crate::state::{promoted, ProgressState, RemoteCallOutcome, RemoteLink, SessionOutcome};

verus! {

/// A single-window progress-indicator handle.
///
/// The cache fields `current_state` and `(completed, total)` always hold the
/// last values the shell accepted — immediately for a handle whose remote
/// link is absent (the inert configuration accepts locally), and through
/// recorded round-trip outcomes otherwise.
pub struct TaskbarProgress {
    /// Identifier of the target window; `0` is the null sentinel meaning
    /// "no window", which keeps the handle away from the shell for good.
    pub window: usize,
    /// Whether the remote indicator object is held.
    pub remote: RemoteLink,
    /// The display mode last accepted by the shell.
    pub current_state: ProgressState,
    /// Completed portion of the fill ratio last accepted by the shell.
    pub completed: u64,
    /// Total portion of the fill ratio last accepted by the shell.
    pub total: u64,
    /// True iff this handle must release one broker-session reference.
    pub session_owned: bool,
    /// The active flag: while false, no remote call may be issued and every
    /// mutation request is silently ignored.
    pub is_active: bool,
}

impl TaskbarProgress {
    /// Well-formedness: the cached ratio never exceeds 100%, and a held
    /// remote indicator always has a real window to address.
    pub open spec fn wf(self) -> bool {
        &&& self.completed <= self.total
        &&& self.remote is Held ==> self.window != 0
    }

    /// The fully disabled handle: no window, no remote indicator, no owned
    /// session, hidden, with an empty cache.
    pub open spec fn spec_inert() -> TaskbarProgress {
        TaskbarProgress {
            window: 0,
            remote: RemoteLink::Absent,
            current_state: ProgressState::NoProgress,
            completed: 0,
            total: 0,
            session_owned: false,
            is_active: false,
        }
    }

    /// Whether a state request must reach the shell: the handle is active and
    /// the requested mode differs from the cached one.
    pub open spec fn state_call_wanted(self, new_state: ProgressState) -> bool {
        self.is_active && new_state != self.current_state
    }

    /// Whether a value request must reach the shell: the handle is active, and
    /// either the ratio differs from the cached one or the display mode
    /// still has to leave the "no ratio" / "unknown ratio" modes.
    pub open spec fn value_call_wanted(self, completed: u64, total: u64) -> bool {
        self.is_active && !(completed == self.completed && total == self.total
            && !(self.current_state is NoProgress) && !(self.current_state is Indeterminate))
    }

    /// The handle after a state request.  A request filtered out by the active flag
    /// or the cache changes nothing; an inert handle accepts locally; a held
    /// remote indicator changes nothing here, because its round trip is
    /// performed by the shell layer and recorded through
    /// [`Self::record_state_outcome`].
    pub open spec fn after_set_state(self, new_state: ProgressState) -> TaskbarProgress {
        if self.state_call_wanted(new_state) && self.remote is Absent {
            TaskbarProgress { current_state: new_state, ..self }
        } else {
            self
        }
    }

    /// The handle after a value request, under the same regime as
    /// [`Self::after_set_state`]: on local acceptance the ratio is committed
    /// and the display mode is promoted.
    pub open spec fn after_set_value(self, completed: u64, total: u64) -> TaskbarProgress {
        if self.value_call_wanted(completed, total) && self.remote is Absent {
            TaskbarProgress {
                current_state: promoted(self.current_state),
                completed,
                total,
                ..self
            }
        } else {
            self
        }
    }

    /// The handle after recording the shell's answer to a state round trip:
    /// commit on acceptance, keep the last-known value on rejection.
    pub open spec fn after_state_outcome(
        self,
        new_state: ProgressState,
        outcome: RemoteCallOutcome,
    ) -> TaskbarProgress {
        if outcome is Accepted {
            TaskbarProgress { current_state: new_state, ..self }
        } else {
            self
        }
    }

    /// The handle after recording the shell's answer to a value round trip:
    /// on acceptance the ratio is committed and the display mode promoted.
    pub open spec fn after_value_outcome(
        self,
        completed: u64,
        total: u64,
        outcome: RemoteCallOutcome,
    ) -> TaskbarProgress {
        if outcome is Accepted {
            TaskbarProgress {
                current_state: promoted(self.current_state),
                completed,
                total,
                ..self
            }
        } else {
            self
        }
    }

    /// The handle after hiding: the displayed state is first reset through
    /// the normal request path, then the handle goes inactive.
    pub open spec fn after_hide(self) -> TaskbarProgress {
        TaskbarProgress { is_active: false, ..self.after_set_state(ProgressState::NoProgress) }
    }

    /// The handle after showing: the handle only becomes active; no request is issued.
    pub open spec fn after_show(self) -> TaskbarProgress {
        TaskbarProgress { is_active: true, ..self }
    }

    /// The handle after release: the remote indicator and the window are
    /// permanently gone and the session reference is no longer owed, while
    /// the cache and the active flag keep their values.
    pub open spec fn after_release(self) -> TaskbarProgress {
        TaskbarProgress {
            window: 0,
            remote: RemoteLink::Absent,
            session_owned: false,
            ..self
        }
    }

    /// The handle produced by the acquisition sequence: a null window or a
    /// failed session yields the fully disabled handle; once a session is
    /// held it is owed a release even when activating the remote indicator
    /// fails, and a handle without a remote indicator discards its window so
    /// later calls cannot address a window it cannot reach.
    pub open spec fn spec_from_acquisition(
        window: usize,
        session: SessionOutcome,
        remote_obtained: bool,
    ) -> TaskbarProgress {
        if window == 0 || session is Failed {
            TaskbarProgress::spec_inert()
        } else if remote_obtained {
            TaskbarProgress {
                window,
                remote: RemoteLink::Held,
                session_owned: true,
                ..TaskbarProgress::spec_inert()
            }
        } else {
            TaskbarProgress { session_owned: true, ..TaskbarProgress::spec_inert() }
        }
    }

    /// A fresh handle with no platform attachment: the fully disabled
    /// configuration of the construction path, used when no target window
    /// or broker is available.
    pub fn new() -> (t: TaskbarProgress)
        ensures
            t == TaskbarProgress::spec_inert(),
            t.wf(),
    {
        TaskbarProgress {
            window: 0,
            remote: RemoteLink::Absent,
            current_state: ProgressState::NoProgress,
            completed: 0,
            total: 0,
            session_owned: false,
            is_active: false,
        }
    }

    /// Assembles the handle from the outcomes of the acquisition steps,
    /// which the shell layer performs: opening the per-thread broker
    /// session, then requesting the remote indicator object for `window`.
    /// Every outcome yields a hidden handle that reports no progress.
    pub fn from_acquisition(
        window: usize,
        session: SessionOutcome,
        remote_obtained: bool,
    ) -> (t: TaskbarProgress)
        ensures
            t == TaskbarProgress::spec_from_acquisition(window, session, remote_obtained),
            t.wf(),
            t.current_state is NoProgress,
            !t.is_active,
    {
        if window == 0 {
            TaskbarProgress::new()
        } else {
            match session {
                SessionOutcome::Failed => TaskbarProgress::new(),
                _ => {
                    if remote_obtained {
                        TaskbarProgress {
                            window,
                            remote: RemoteLink::Held,
                            current_state: ProgressState::NoProgress,
                            completed: 0,
                            total: 0,
                            session_owned: true,
                            is_active: false,
                        }
                    } else {
                        TaskbarProgress {
                            window: 0,
                            remote: RemoteLink::Absent,
                            current_state: ProgressState::NoProgress,
                            completed: 0,
                            total: 0,
                            session_owned: true,
                            is_active: false,
                        }
                    }
                },
            }
        }
    }

    /// Requests the display mode `new_state`.  Ignored while the handle is
    /// inactive or when the mode is already displayed; an inert handle commits
    /// the mode locally.  When a remote indicator is held, the shell layer
    /// that owns it performs the round trip instead, consulting
    /// [`Self::state_call_needed`] and recording the answer through
    /// [`Self::record_state_outcome`], so this method leaves the cache at
    /// the last value the shell accepted.
    pub fn set_progress_state(&mut self, new_state: ProgressState)
        requires
            old(self).wf(),
        ensures
            final(self).wf(),
            *final(self) == old(self).after_set_state(new_state),
            !old(self).is_active || new_state == old(self).current_state
                ==> *final(self) == *old(self),
    {
        if new_state == self.current_state || !self.is_active {
            return;
        }
        match self.remote {
            RemoteLink::Absent => {
                self.current_state = new_state;
            },
            RemoteLink::Held => {},
        }
    }

    /// Requests the fill ratio `(completed, total)`.  The ratio must not
    /// exceed 100%: the shell's behaviour is undefined beyond it, so a
    /// violation is a caller bug, ruled out before any call is issued.
    /// Ignored while the handle is inactive, or when the ratio is already
    /// displayed and the mode needs no promotion; an inert handle commits
    /// locally, promoting the display mode.  A held remote indicator is
    /// driven by the shell layer through [`Self::value_call_needed`] and
    /// [`Self::record_value_outcome`] instead.
    pub fn set_progress_value(&mut self, completed: u64, total: u64)
        requires
            old(self).wf(),
            completed <= total,
        ensures
            final(self).wf(),
            *final(self) == old(self).after_set_value(completed, total),
            !old(self).is_active ==> *final(self) == *old(self),
    {
        let ratio_displayed = completed == self.completed && total == self.total;
        let mode_settled = match self.current_state {
            ProgressState::NoProgress => false,
            ProgressState::Indeterminate => false,
            _ => true,
        };
        if (ratio_displayed && mode_settled) || !self.is_active {
            return;
        }
        match self.remote {
            RemoteLink::Absent => {
                self.current_state = crate::state::promote(self.current_state);
                self.completed = completed;
                self.total = total;
            },
            RemoteLink::Held => {},
        }
    }

    /// Whether a state request for `new_state` must reach the shell.  The
    /// shell layer consults this before issuing the remote call, so no call
    /// is ever issued while the handle is inactive or for the mode already
    /// displayed.
    pub fn state_call_needed(&self, new_state: ProgressState) -> (r: bool)
        ensures
            r == self.state_call_wanted(new_state),
    {
        self.is_active && new_state != self.current_state
    }

    /// Whether a value request for `(completed, total)` must reach the
    /// shell; the counterpart of [`Self::state_call_needed`] for the fill
    /// ratio.
    pub fn value_call_needed(&self, completed: u64, total: u64) -> (r: bool)
        ensures
            r == self.value_call_wanted(completed, total),
    {
        let ratio_displayed = completed == self.completed && total == self.total;
        let mode_settled = match self.current_state {
            ProgressState::NoProgress => false,
            ProgressState::Indeterminate => false,
            _ => true,
        };
        self.is_active && !(ratio_displayed && mode_settled)
    }

    /// Records the shell's answer to a state round trip: on acceptance the
    /// mode is committed, on rejection the cache keeps the last-known
    /// value, so it always reflects what the shell actually displays.
    pub fn record_state_outcome(&mut self, new_state: ProgressState, outcome: RemoteCallOutcome)
        requires
            old(self).wf(),
        ensures
            final(self).wf(),
            *final(self) == old(self).after_state_outcome(new_state, outcome),
    {
        match outcome {
            RemoteCallOutcome::Accepted => {
                self.current_state = new_state;
            },
            RemoteCallOutcome::Rejected => {},
        }
    }

    /// Records the shell's answer to a value round trip: on acceptance the
    /// ratio is committed and the display mode promoted, on rejection
    /// nothing changes.
    pub fn record_value_outcome(&mut self, completed: u64, total: u64, outcome: RemoteCallOutcome)
        requires
            old(self).wf(),
            completed <= total,
        ensures
            final(self).wf(),
            *final(self) == old(self).after_value_outcome(completed, total, outcome),
    {
        match outcome {
            RemoteCallOutcome::Accepted => {
                self.current_state = crate::state::promote(self.current_state);
                self.completed = completed;
                self.total = total;
            },
            RemoteCallOutcome::Rejected => {},
        }
    }

    /// Hides the indicator: forces the displayed state back to "no
    /// progress" through the normal request path, then clears the active flag, so
    /// every later request is ignored until [`Self::show`].
    pub fn hide_indicator(&mut self)
        requires
            old(self).wf(),
        ensures
            final(self).wf(),
            *final(self) == old(self).after_hide(),
            !final(self).is_active,
    {
        self.set_progress_state(ProgressState::NoProgress);
        self.is_active = false;
    }

    /// Shows the indicator: sets the active flag and nothing more.  No request is
    /// issued; the next state or value request is the first one forwarded.
    pub fn show(&mut self)
        requires
            old(self).wf(),
        ensures
            final(self).wf(),
            *final(self) == old(self).after_show(),
    {
        self.is_active = true;
    }

    /// Releases the handle's resources: the remote indicator and the window
    /// become permanently absent and the broker-session reference is no
    /// longer owed.  Safe to call any number of times; after the first call
    /// there is nothing left to give up.  The shell layer performs the
    /// platform releases first, consulting [`Self::remote_held`] and
    /// [`Self::owns_session`] so each happens exactly once.
    pub fn release(&mut self)
        requires
            old(self).wf(),
        ensures
            final(self).wf(),
            *final(self) == old(self).after_release(),
    {
        self.window = 0;
        self.remote = RemoteLink::Absent;
        self.session_owned = false;
    }

    /// The display mode last accepted by the shell.
    pub fn get_state(&self) -> (r: ProgressState)
        ensures
            r == self.current_state,
    {
        self.current_state
    }

    /// The fill ratio last accepted by the shell.
    pub fn get_value(&self) -> (r: (u64, u64))
        ensures
            r == (self.completed, self.total),
    {
        (self.completed, self.total)
    }

    /// Whether the handle is active.
    pub fn get_is_active(&self) -> (r: bool)
        ensures
            r == self.is_active,
    {
        self.is_active
    }

    /// Whether the remote indicator object is held and must be released.
    pub fn remote_held(&self) -> (r: bool)
        ensures
            r == (self.remote is Held),
    {
        match self.remote {
            RemoteLink::Held => true,
            RemoteLink::Absent => false,
        }
    }

    /// Whether this handle still owes one broker-session release.
    pub fn owns_session(&self) -> (r: bool)
        ensures
            r == self.session_owned,
    {
        self.session_owned
    }
}

} // verus!
