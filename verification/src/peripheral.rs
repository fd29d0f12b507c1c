//! The model of the digital input line that the counter listens on.

use vstd::prelude::*;

verus! {

/// Bias applied to the line while nothing drives it.
#[derive(Clone, Copy, Debug, PartialEq, Eq, Structural)]
pub enum Pull {
    Up,
    Down,
    Floating,
}

/// The transitions of the line that raise the interrupt condition.
#[derive(Clone, Copy, Debug, PartialEq, Eq, Structural)]
pub enum Event {
    FallingEdge,
    RisingEdge,
    AnyEdge,
    Disabled,
}

/// One change of the line's level.
#[derive(Clone, Copy, Debug, PartialEq, Eq, Structural)]
pub enum Transition {
    /// High to low: the button goes down.
    Falling,
    /// Low to high: the button is let go.
    Rising,
}

/// Whether a line configured for `event` raises its interrupt condition on
/// the transition `t`.
pub open spec fn triggers(event: Event, t: Transition) -> bool {
    match event {
        Event::FallingEdge => t == Transition::Falling,
        Event::RisingEdge => t == Transition::Rising,
        Event::AnyEdge => true,
        Event::Disabled => false,
    }
}

/// What an input line is, as a value: its bias, the edges it listens for and
/// whether its interrupt condition is raised.
pub struct PinView {
    pub pull: Pull,
    pub event: Event,
    pub pending: bool,
}

impl PinView {
    /// The line after its interrupt condition was cleared.
    pub open spec fn cleared(self) -> PinView {
        PinView { pending: false, ..self }
    }

    /// The line after it was told to listen for `event`.
    pub open spec fn listening(self, event: Event) -> PinView {
        PinView { event, ..self }
    }

    /// The line after the transition `t` was seen on it.
    pub open spec fn sensed(self, t: Transition) -> PinView {
        PinView { pending: self.pending || triggers(self.event, t), ..self }
    }
}

/// Exclusive ownership of the input line. It is neither `Clone` nor `Copy`:
/// whoever holds the value holds the line. A line can only be told to listen
/// once it sits inside the shared state.
#[derive(Debug)]
pub struct InputPeripheral {
    pull: Pull,
    event: Event,
    pending: bool,
}

impl View for InputPeripheral {
    type V = PinView;

    closed spec fn view(&self) -> PinView {
        PinView { pull: self.pull, event: self.event, pending: self.pending }
    }
}

impl InputPeripheral {
    /// Claims the line with the given bias. It listens for nothing yet and
    /// no interrupt condition is raised.
    pub fn new(pull: Pull) -> (pin: InputPeripheral)
        ensures
            pin@ == (PinView { pull, event: Event::Disabled, pending: false }),
    {
        InputPeripheral { pull, event: Event::Disabled, pending: false }
    }

    /// The bias the line was claimed with.
    pub fn pull(&self) -> (pull: Pull)
        ensures
            pull == self@.pull,
    {
        self.pull
    }

    /// The edges the line listens for.
    pub fn event(&self) -> (event: Event)
        ensures
            event == self@.event,
    {
        self.event
    }

    /// Whether the interrupt condition is raised and not yet cleared.
    pub fn is_interrupt_set(&self) -> (pending: bool)
        ensures
            pending == self@.pending,
    {
        self.pending
    }

    /// Clears the interrupt condition. Where none is raised nothing changes.
    pub fn clear_interrupt(&mut self)
        ensures
            final(self)@ == old(self)@.cleared(),
    {
        self.pending = false;
    }

    /// Selects the edges that raise the interrupt condition.
    pub(crate) fn listen(&mut self, event: Event)
        ensures
            final(self)@ == old(self)@.listening(event),
    {
        self.event = event;
    }

    /// Records one transition of the line: the interrupt condition is raised
    /// if the line listens for it, and stays raised if it already was.
    /// Returns whether this transition raised it.
    pub(crate) fn sense(&mut self, t: Transition) -> (raised: bool)
        ensures
            final(self)@ == old(self)@.sensed(t),
            raised == triggers(old(self)@.event, t),
    {
        let raised = match self.event {
            Event::FallingEdge => t == Transition::Falling,
            Event::RisingEdge => t == Transition::Rising,
            Event::AnyEdge => true,
            Event::Disabled => false,
        };
        if raised {
            self.pending = true;
        }
        raised
    }
}

} // verus!
