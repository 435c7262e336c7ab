//! Restores focus to the previously active window and then types the
//! platform's paste shortcut into it.
//!
//! The operating-system work (activating an application, opening a display
//! connection, sleeping, injecting key events) is done by the caller. This
//! library decides, one step at a time, what must be done next, given how the
//! previous step went. Its proofs show the ordering and timing guarantees that
//! the action relies on.
pub mod action;
pub mod session;
pub mod laws;
