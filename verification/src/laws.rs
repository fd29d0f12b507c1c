//! What holds of the counter over whole runs.

use vstd::prelude::*;
use crate::exclusive::{state_after, Access};
use crate::isr::{after_edge, handled};
use crate::peripheral::{Event, PinView, Transition};
use crate::state::{next_count, StateView};

verus! {

/// The state after `n` presses, each a falling edge that the handler has
/// dealt with before the next one arrives.
pub open spec fn after_presses(s: StateView, n: nat) -> StateView
    decreases n,
{
    if n == 0 {
        s
    } else {
        after_edge(after_presses(s, (n - 1) as nat), Transition::Falling)
    }
}

/// The state after a burst of `k` falling edges of which the handler ran
/// only its first step each time: nothing has consumed the flag yet.
pub open spec fn after_burst(s: StateView, k: nat) -> StateView
    decreases k,
{
    if k == 0 {
        s
    } else {
        after_burst(s, (k - 1) as nat).sensed(Transition::Falling).acknowledged()
    }
}

/// On a line that listens for falling edges, `n` presses that are each
/// handled before the next advance the counter by exactly `n`, modulo 2^32,
/// and leave no event pending.
pub proof fn lemma_each_press_counts_once(s: StateView, n: nat)
    requires
        s.raises(Transition::Falling),
    ensures
        after_presses(s, n).count == (s.count + n) % 0x1_0000_0000,
        s.count + n <= u32::MAX ==> after_presses(s, n).count == s.count + n,
        after_presses(s, n).raises(Transition::Falling),
        n > 0 ==> !after_presses(s, n).flag,
        n > 0 ==> after_presses(s, n).pin == Some(s.pin.unwrap().cleared()),
    decreases n,
{
    if n > 0 {
        lemma_each_press_counts_once(s, (n - 1) as nat);
    }
}

/// However many falling edges arrive while the flag waits to be consumed,
/// consuming it counts one event, and consuming again counts nothing more.
pub proof fn lemma_burst_counts_once(s: StateView, k: nat)
    requires
        s.pin.is_some(),
        k > 0,
    ensures
        after_burst(s, k).pin.is_some(),
        after_burst(s, k).flag,
        after_burst(s, k).count == s.count,
        after_burst(s, k).drained().count == next_count(s.count),
        after_burst(s, k).drained().drain_report() == None::<u32>,
        after_burst(s, k).drained().drained() == after_burst(s, k).drained(),
    decreases k,
{
    if k > 1 {
        lemma_burst_counts_once(s, (k - 1) as nat);
    } else {
        assert(after_burst(s, 0) == s);
    }
}

/// An edge that arrives while the flag is already set changes neither flag
/// nor counter.
pub proof fn lemma_edge_on_set_flag_coalesces(s: StateView, t: Transition)
    requires
        s.flag,
    ensures
        s.sensed(t).acknowledged().flag,
        s.sensed(t).acknowledged().count == s.count,
        s.sensed(t).acknowledged().drained() == s.acknowledged().drained(),
{
}

/// Every access is one step: whoever looks at the counter before or after it
/// sees the count as it was or advanced by one, and nothing else. Between
/// the handler's two steps the counter still has its old value.
pub proof fn lemma_observer_sees_old_or_new(s: StateView, access: Access)
    ensures
        state_after(s, access).count == s.count || state_after(s, access).count == next_count(
            s.count,
        ),
        !(access is Drain) ==> state_after(s, access).count == s.count,
        s.acknowledged().count == s.count,
        handled(s).count == s.count || handled(s).count == next_count(s.count),
{
}

/// Short of the wrap at `u32::MAX`, no access and no run of the handler ever
/// lowers the counter.
pub proof fn lemma_counter_never_decreases(s: StateView, access: Access, t: Transition)
    requires
        s.count < u32::MAX,
    ensures
        state_after(s, access).count >= s.count,
        handled(s).count >= s.count,
        after_edge(s, t).count >= s.count,
{
}

/// While no line is installed the interrupt source cannot be enabled and no
/// transition raises an interrupt; a line that was just installed does not
/// listen until it is told to.
pub proof fn lemma_no_interrupt_before_install(
    s: StateView,
    fresh: PinView,
    event: Event,
    t: Transition,
)
    requires
        s.pin.is_none(),
        fresh.event == Event::Disabled,
        !fresh.pending,
    ensures
        s.listening(event) == s,
        !s.raises(t),
        after_edge(s, t) == s,
        !s.installed(fresh).raises(t),
        after_edge(s.installed(fresh), t) == s.installed(fresh),
{
}

/// Clearing the interrupt condition twice is clearing it once, and clearing
/// one that is not raised changes nothing. The handler's first step never
/// moves the counter.
pub proof fn lemma_clear_is_idempotent(p: PinView, s: StateView)
    ensures
        p.cleared().cleared() == p.cleared(),
        !p.pending ==> p.cleared() == p,
        s.acknowledged().acknowledged() == s.acknowledged(),
        s.acknowledged().count == s.count,
{
}

} // verus!
