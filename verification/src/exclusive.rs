//! Access to the shared state from inside a critical section.

use vstd::prelude::*;
use crate::peripheral::{Event, InputPeripheral};
use crate::state::{SharedState, StateError, StateView};

verus! {

/// One bounded operation on the shared state.
#[derive(Debug)]
pub enum Access {
    /// Move the line into the state.
    Install(InputPeripheral),
    /// Tell the installed line which edges to listen for.
    Listen(Event),
    /// Clear the line's interrupt condition and set the flag.
    Acknowledge,
    /// Consume the pending event, if there is one.
    Drain,
    /// Read the counter.
    ReadCount,
}

/// The state that `access` leaves behind.
pub open spec fn state_after(s: StateView, access: Access) -> StateView {
    match access {
        Access::Install(pin) => s.installed(pin@),
        Access::Listen(event) => s.listening(event),
        Access::Acknowledge => s.acknowledged(),
        Access::Drain => s.drained(),
        Access::ReadCount => s,
    }
}

/// Whether `access` needs an installed line.
pub open spec fn needs_pin(access: Access) -> bool {
    access is Listen || access is Acknowledge
}

/// What `access` hands back: the counter where it read or advanced it,
/// nothing where it did neither, and an error where it needed a line that is
/// not there.
pub open spec fn outcome_of(s: StateView, access: Access) -> Result<Option<u32>, StateError> {
    if needs_pin(access) && s.pin.is_none() {
        Err(StateError::Uninitialized)
    } else {
        match access {
            Access::Drain => Ok(s.drain_report()),
            Access::ReadCount => Ok(Some(s.count)),
            _ => Ok(None),
        }
    }
}

impl SharedState {
    /// Carries out one access.
    pub fn perform(&mut self, access: Access) -> (outcome: Result<Option<u32>, StateError>)
        ensures
            final(self)@ == state_after(old(self)@, access),
            outcome == outcome_of(old(self)@, access),
    {
        match access {
            Access::Install(pin) => {
                self.install(pin);
                Ok(None)
            },
            Access::Listen(event) => match self.listen(event) {
                Ok(()) => Ok(None),
                Err(e) => Err(e),
            },
            Access::Acknowledge => match self.acknowledge() {
                Ok(()) => Ok(None),
                Err(e) => Err(e),
            },
            Access::Drain => Ok(self.drain()),
            Access::ReadCount => Ok(Some(self.count())),
        }
    }
}

/// Carries out one access with interrupts masked, through
/// `critical_section::with`. Trusted: that `with` runs the closure it is
/// given exactly once, lets nothing else touch the state meanwhile, and
/// returns what the closure returned, so that state and outcome are those of
/// [`SharedState::perform`].
#[verifier::external_body]
pub(crate) fn with_critical_section(state: &mut SharedState, access: Access) -> (outcome: Result<
    Option<u32>,
    StateError,
>)
    ensures
        final(state)@ == state_after(old(state)@, access),
        outcome == outcome_of(old(state)@, access),
{
    critical_section::with(|_cs| state.perform(access))
}

} // verus!
