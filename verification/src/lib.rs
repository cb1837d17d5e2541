//! Engine of a keyboard-driven terminal dashboard for a version-control
//! repository.
//!
//! The crate holds the verified core: the scrollable-list windowing
//! algorithm, the focus/event-routing state machine, the modal popup
//! protocol, and the retry/progress state machine for background network
//! operations.  Terminal rendering and the repository backend are external
//! collaborators; the engine exchanges plain values with them.

use vstd::prelude::*;

pub mod app;
pub mod components;
pub mod error;
pub mod git;
pub mod keys;
pub mod list_window;
pub mod strutil;

verus! {

/// A message produced by the input-polling thread: either a key press or a
/// periodic tick.
pub enum Event<I> {
    Input(I),
    Tick,
}

} // verus!
