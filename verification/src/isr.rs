//! Start-up, the interrupt handler and the foreground's read.

use vstd::prelude::*;
use crate::exclusive::{with_critical_section, Access};
use crate::peripheral::{Event, InputPeripheral, PinView, Pull, Transition};
use crate::state::{next_count, SharedState, StateError, StateView};

verus! {

/// The state that start-up hands to the rest of the program.
pub open spec fn started() -> StateView {
    StateView {
        pin: Some(PinView { pull: Pull::Up, event: Event::FallingEdge, pending: false }),
        flag: false,
        count: 0,
    }
}

/// The state after one run of the handler: both steps where a line is
/// installed, no change where none is.
pub open spec fn handled(s: StateView) -> StateView {
    if s.pin.is_some() {
        s.acknowledged().drained()
    } else {
        s
    }
}

/// What one run of the handler reports.
pub open spec fn handler_report(s: StateView) -> Result<Option<u32>, StateError> {
    if s.pin.is_some() {
        Ok(Some(next_count(s.count)))
    } else {
        Err(StateError::Uninitialized)
    }
}

/// One-time setup: claims the line with a pull-up, moves it into the shared
/// state, and only then enables the falling-edge interrupt on it.
pub fn startup() -> (state: SharedState)
    ensures
        state@ == started(),
{
    let mut state = SharedState::new();
    let pin = InputPeripheral::new(Pull::Up);
    let _ = with_critical_section(&mut state, Access::Install(pin));
    let _ = with_critical_section(&mut state, Access::Listen(Event::FallingEdge));
    state
}

/// The interrupt handler. In a first critical section it clears the line's
/// interrupt condition and sets the flag; in a second one it consumes the
/// flag and counts the event. Returns the new count, which the caller is to
/// report. While no line is installed it changes nothing and returns the
/// error, on which the caller is to halt.
pub fn gpio(state: &mut SharedState) -> (report: Result<Option<u32>, StateError>)
    ensures
        final(state)@ == handled(old(state)@),
        report == handler_report(old(state)@),
{
    match with_critical_section(state, Access::Acknowledge) {
        Ok(_) => with_critical_section(state, Access::Drain),
        Err(e) => Err(e),
    }
}

/// The state after the line made the transition `t` and the handler ran on
/// it, which it does where the line's interrupt condition is then raised.
pub open spec fn after_edge(s: StateView, t: Transition) -> StateView {
    if s.sensed(t).pin matches Some(p) && p.pending {
        handled(s.sensed(t))
    } else {
        s.sensed(t)
    }
}

/// What the handler reported on the transition `t`, where it ran.
pub open spec fn edge_report(s: StateView, t: Transition) -> Option<u32> {
    if s.sensed(t).pin matches Some(p) && p.pending {
        Some(next_count(s.count))
    } else {
        None
    }
}

/// One transition of the line as the hardware delivers it: the line takes
/// note of it, and where its interrupt condition is then raised the handler
/// runs once. Returns what the handler reported, if it ran.
pub fn edge(state: &mut SharedState, t: Transition) -> (report: Option<u32>)
    ensures
        final(state)@ == after_edge(old(state)@, t),
        report == edge_report(old(state)@, t),
{
    state.line_change(t);
    if state.interrupt_requested() {
        match gpio(state) {
            Ok(report) => report,
            Err(_) => None,
        }
    } else {
        None
    }
}

/// The deferred form of the handler's second step, for a foreground loop:
/// consumes a pending event, if there is one, in one critical section.
pub fn consume(state: &mut SharedState) -> (report: Option<u32>)
    ensures
        final(state)@ == old(state)@.drained(),
        report == old(state)@.drain_report(),
{
    match with_critical_section(state, Access::Drain) {
        Ok(report) => report,
        Err(_) => None,
    }
}

/// Reads the counter from the foreground, in a critical section.
pub fn read_count(state: &mut SharedState) -> (count: u32)
    ensures
        final(state)@ == old(state)@,
        count == old(state)@.count,
{
    match with_critical_section(state, Access::ReadCount) {
        Ok(Some(count)) => count,
        _ => state.count(),
    }
}

} // verus!
