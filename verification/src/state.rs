//! The shared state: the input line, the pending-event flag and the counter.

use vstd::prelude::*;
use crate::peripheral::{Event, InputPeripheral, PinView, Transition, triggers};

verus! {

/// Why an access to the shared state was refused.
#[derive(Clone, Copy, Debug, PartialEq, Eq, Structural)]
pub enum StateError {
    /// The access needs the input line, and none has been installed yet.
    Uninitialized,
}

/// The counter after one more event. It wraps to zero past `u32::MAX`.
pub open spec fn next_count(count: u32) -> u32 {
    if count == u32::MAX {
        0u32
    } else {
        (count + 1) as u32
    }
}

/// The shared state as a value.
pub struct StateView {
    /// The installed line, if any.
    pub pin: Option<PinView>,
    /// An edge has occurred and has not been consumed yet.
    pub flag: bool,
    /// The events consumed so far, modulo 2^32.
    pub count: u32,
}

impl StateView {
    /// The state before anything was installed.
    pub open spec fn initial() -> StateView {
        StateView { pin: None, flag: false, count: 0 }
    }

    /// The state after `pin` was moved in.
    pub open spec fn installed(self, pin: PinView) -> StateView {
        StateView { pin: Some(pin), ..self }
    }

    /// The state after the installed line was told to listen for `event`;
    /// unchanged where no line is installed.
    pub open spec fn listening(self, event: Event) -> StateView {
        match self.pin {
            Some(p) => StateView { pin: Some(p.listening(event)), ..self },
            None => self,
        }
    }

    /// The state after the line made the transition `t`; unchanged where no
    /// line is installed.
    pub open spec fn sensed(self, t: Transition) -> StateView {
        match self.pin {
            Some(p) => StateView { pin: Some(p.sensed(t)), ..self },
            None => self,
        }
    }

    /// Whether the transition `t` raises the interrupt condition.
    pub open spec fn raises(self, t: Transition) -> bool {
        match self.pin {
            Some(p) => triggers(p.event, t),
            None => false,
        }
    }

    /// The state after the handler's first step: the line's interrupt
    /// condition cleared and the flag set. Unchanged where no line is
    /// installed.
    pub open spec fn acknowledged(self) -> StateView {
        match self.pin {
            Some(p) => StateView { pin: Some(p.cleared()), flag: true, count: self.count },
            None => self,
        }
    }

    /// The state after the handler's second step: a set flag is cleared and
    /// counted once. Unchanged where the flag is not set.
    pub open spec fn drained(self) -> StateView {
        if self.flag {
            StateView { flag: false, count: next_count(self.count), ..self }
        } else {
            self
        }
    }

    /// What draining reports: the new count where the flag was set.
    pub open spec fn drain_report(self) -> Option<u32> {
        if self.flag {
            Some(next_count(self.count))
        } else {
            None
        }
    }
}

/// The three shared cells in one container.
#[derive(Debug)]
pub struct SharedState {
    pin: Option<InputPeripheral>,
    flag: bool,
    count: u32,
}

impl View for SharedState {
    type V = StateView;

    closed spec fn view(&self) -> StateView {
        StateView {
            pin: match self.pin {
                Some(p) => Some(p@),
                None => None,
            },
            flag: self.flag,
            count: self.count,
        }
    }
}

impl SharedState {
    /// The state at boot: no line, no pending event, nothing counted.
    pub fn new() -> (state: SharedState)
        ensures
            state@ == StateView::initial(),
    {
        SharedState { pin: None, flag: false, count: 0 }
    }

    /// Whether a line has been installed.
    pub fn is_installed(&self) -> (installed: bool)
        ensures
            installed == self@.pin.is_some(),
    {
        self.pin.is_some()
    }

    /// Whether an edge has occurred that was not consumed yet.
    pub fn is_pending(&self) -> (flag: bool)
        ensures
            flag == self@.flag,
    {
        self.flag
    }

    /// The number of events consumed so far.
    pub fn count(&self) -> (count: u32)
        ensures
            count == self@.count,
    {
        self.count
    }

    /// Whether the line's interrupt condition is raised. While it is, the
    /// handler is due to run (again).
    pub fn interrupt_requested(&self) -> (requested: bool)
        ensures
            requested == (self@.pin matches Some(p) && p.pending),
    {
        match &self.pin {
            Some(p) => p.is_interrupt_set(),
            None => false,
        }
    }

    /// Moves the line into the shared state. A line that was there before
    /// is dropped; flag and counter stay as they are.
    pub fn install(&mut self, pin: InputPeripheral)
        ensures
            final(self)@ == old(self)@.installed(pin@),
    {
        self.pin = Some(pin);
    }

    /// Tells the installed line which edges to listen for. This is the only
    /// way to enable the interrupt source, and it is refused while no line
    /// is installed.
    pub fn listen(&mut self, event: Event) -> (r: Result<(), StateError>)
        ensures
            r.is_ok() <==> old(self)@.pin.is_some(),
            r.is_err() ==> r == Err::<(), StateError>(StateError::Uninitialized),
            final(self)@ == old(self)@.listening(event),
    {
        match self.pin.take() {
            Some(mut p) => {
                p.listen(event);
                self.pin = Some(p);
                Ok(())
            },
            None => Err(StateError::Uninitialized),
        }
    }

    /// The hardware's side: the line makes the transition `t`. Returns
    /// whether this raised the interrupt condition, which it does only on an
    /// installed line that listens for `t`.
    pub fn line_change(&mut self, t: Transition) -> (raised: bool)
        ensures
            final(self)@ == old(self)@.sensed(t),
            raised == old(self)@.raises(t),
    {
        match self.pin.take() {
            Some(mut p) => {
                let raised = p.sense(t);
                self.pin = Some(p);
                raised
            },
            None => false,
        }
    }

    /// The handler's first step: clears the line's interrupt condition and
    /// sets the flag. Refused, with nothing changed, while no line is
    /// installed.
    pub fn acknowledge(&mut self) -> (r: Result<(), StateError>)
        ensures
            r.is_ok() <==> old(self)@.pin.is_some(),
            r.is_err() ==> r == Err::<(), StateError>(StateError::Uninitialized),
            final(self)@ == old(self)@.acknowledged(),
    {
        match self.pin.take() {
            Some(mut p) => {
                p.clear_interrupt();
                self.pin = Some(p);
                self.flag = true;
                Ok(())
            },
            None => Err(StateError::Uninitialized),
        }
    }

    /// The handler's second step: where the flag is set, clears it, counts
    /// one event (wrapping past `u32::MAX`) and returns the new count.
    /// Where it is not set, nothing changes and nothing is returned.
    pub fn drain(&mut self) -> (report: Option<u32>)
        ensures
            final(self)@ == old(self)@.drained(),
            report == old(self)@.drain_report(),
    {
        if self.flag {
            self.flag = false;
            self.count = self.count.wrapping_add(1);
            Some(self.count)
        } else {
            None
        }
    }
}

} // verus!
