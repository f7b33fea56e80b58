//! Core logic of a global mouse-capture subsystem.
//!
//! The operating-system side — installing the low-level pointer hook,
//! pumping its message loop, and moving the cursor — lives outside this
//! library. This crate holds the part that can be reasoned about: the
//! mapping of raw pointer messages to abstract events, and the
//! capture/passive decision that says, for every event, whether a handler
//! is invoked and whether the event is swallowed or passed through.

pub mod events;
pub mod laws;
pub mod state;
