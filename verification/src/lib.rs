//! Session-lock monitoring: the decisions of a background task that watches
//! whether the desktop session is locked and tells one subscriber about every
//! change.
//!
//! The native signal sources, the sleeping and the publishing live with the
//! caller. This library holds what is decided between them: how a native
//! reading is classified, when a reading counts as a change, what is published
//! for it, and how the monitoring task moves from starting to running to
//! terminated.

pub mod debounce;
pub mod event;
pub mod handle;
pub mod monitor;
pub mod source;
pub mod transitions;
