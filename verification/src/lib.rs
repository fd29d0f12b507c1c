//! Counting button presses across the boundary between an interrupt handler
//! and the foreground.
//!
//! One digital input line, one pending-event flag and one counter live in a
//! single [`state::SharedState`]. Every access to it is a short, bounded
//! operation that runs inside a critical section, so an observer sees the
//! state either before or after an access and never in between.

pub mod peripheral;
pub mod state;
pub mod exclusive;
pub mod isr;
pub mod report;
pub mod laws;
