//! A verified core for a taskbar progress indicator attached to one
//! top-level window.
//!
//! The platform's shell interface offers two remote operations — "set
//! indicator state" and "set indicator fill ratio" — but enforces no
//! discipline around them.  This crate provides the stateful guard that a
//! desktop application places in front of that interface:
//!
//! * an active/inactive flag: while the indicator is hidden, no request may
//!   reach the shell and every mutation is silently ignored;
//! * a cache of the last state and fill ratio the shell accepted, used to
//!   suppress redundant remote calls;
//! * a small state machine (setting a concrete fill ratio promotes the
//!   "no progress" and "indeterminate" display modes to "normal", but never
//!   clears a paused or error override);
//! * an idempotent release path for the remote indicator object and the
//!   per-thread broker session behind it.
//!
//! The remote round trips themselves are platform work that the verified
//! core cannot perform; an embedding shell layer drives them.  The core
//! decides when a round trip is required ([`handle::TaskbarProgress::state_call_needed`],
//! [`handle::TaskbarProgress::value_call_needed`]) and records the outcome of
//! each one ([`handle::TaskbarProgress::record_state_outcome`],
//! [`handle::TaskbarProgress::record_value_outcome`]), so the cache only ever
//! holds values the shell actually accepted.  A handle without a remote
//! indicator is the inert configuration: requests are accepted locally, which
//! keeps the state machine exercisable when the platform is absent.

pub mod handle;
pub mod laws;
pub mod state;
