//! Tracks the windowing server's active window and decides when the window
//! that focus just left should be hidden.
//!
//! The crate holds the decision logic only: resolving "which window is
//! active" from a property reply, and the state machine that reacts to
//! property-change notifications. The transport (the session with the
//! windowing server) lives outside and hands this crate plain values.

pub mod laws;
pub mod resolver;
pub mod tracker;
