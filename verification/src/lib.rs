//! Core of an asynchronous command-dispatch mechanism for an interactive
//! rendering loop.
//!
//! The interactive layer dispatches typed request envelopes over a bounded
//! first-in-first-out channel to a worker, guarded so that at most one
//! request per action-kind is ever outstanding. The worker produces exactly
//! one outcome per accepted envelope, and the outcome is reconciled back
//! into per-action-kind state that the rendering loop reads every frame.

pub mod channel;
pub mod message;
pub mod reconcile;
pub mod session;
pub mod worker;
