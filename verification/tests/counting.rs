use press_counter::exclusive::Access;
use press_counter::isr::{consume, edge, gpio, read_count, startup};
use press_counter::peripheral::{Event, InputPeripheral, Pull, Transition};
use press_counter::report::report_line;
use press_counter::state::{SharedState, StateError};

#[test]
fn three_presses_report_one_two_three() {
    let mut state = startup();
    let mut lines = Vec::new();
    for expected in 1u32..=3 {
        let report = edge(&mut state, Transition::Falling);
        assert_eq!(report, Some(expected));
        assert_eq!(read_count(&mut state), expected);
        assert!(!state.is_pending());
        assert!(!state.interrupt_requested());
        lines.push(report_line(report.unwrap()));
        assert_eq!(edge(&mut state, Transition::Rising), None);
    }
    assert_eq!(
        lines,
        vec![
            "Button press count: 1".to_string(),
            "Button press count: 2".to_string(),
            "Button press count: 3".to_string(),
        ]
    );
}

#[test]
fn two_edges_before_drain_count_once() {
    let mut state = startup();
    assert!(state.line_change(Transition::Falling));
    assert_eq!(state.acknowledge(), Ok(()));
    assert!(state.is_pending());
    assert!(state.line_change(Transition::Falling));
    assert_eq!(state.acknowledge(), Ok(()));
    assert!(state.is_pending());
    assert_eq!(state.count(), 0);
    assert_eq!(consume(&mut state), Some(1));
    assert_eq!(consume(&mut state), None);
    assert_eq!(read_count(&mut state), 1);
    assert!(!state.is_pending());
}

#[test]
fn n_separate_presses_count_n() {
    let mut state = startup();
    let before = read_count(&mut state);
    let n = 250u32;
    for _ in 0..n {
        assert!(edge(&mut state, Transition::Falling).is_some());
        assert!(!state.is_pending());
    }
    assert_eq!(read_count(&mut state), before + n);
}

#[test]
fn long_burst_counts_once_after_earlier_presses() {
    let mut state = startup();
    assert_eq!(edge(&mut state, Transition::Falling), Some(1));
    assert_eq!(edge(&mut state, Transition::Falling), Some(2));
    for _ in 0..17 {
        state.line_change(Transition::Falling);
        assert_eq!(state.perform(Access::Acknowledge), Ok(None));
    }
    assert_eq!(state.perform(Access::Drain), Ok(Some(3)));
    assert_eq!(state.perform(Access::Drain), Ok(None));
    assert_eq!(state.count(), 3);
}

#[test]
fn reader_sees_count_before_or_after_a_handler_run() {
    let mut state = startup();
    assert_eq!(edge(&mut state, Transition::Falling), Some(1));
    let before = read_count(&mut state);
    state.line_change(Transition::Falling);
    assert_eq!(state.acknowledge(), Ok(()));
    let between = read_count(&mut state);
    assert_eq!(state.drain(), Some(2));
    let after = read_count(&mut state);
    assert_eq!(before, 1);
    assert_eq!(between, before);
    assert_eq!(after, before + 1);
}

#[test]
fn read_count_changes_nothing() {
    let mut state = startup();
    state.line_change(Transition::Falling);
    assert_eq!(state.acknowledge(), Ok(()));
    assert_eq!(read_count(&mut state), 0);
    assert!(state.is_pending());
    assert!(state.is_installed());
    assert_eq!(state.perform(Access::ReadCount), Ok(Some(0)));
    assert!(state.is_pending());
}

#[test]
fn startup_installs_then_listens() {
    let mut state = startup();
    assert!(state.is_installed());
    assert!(!state.is_pending());
    assert!(!state.interrupt_requested());
    assert_eq!(state.count(), 0);
    assert!(!state.line_change(Transition::Rising));
    assert!(!state.interrupt_requested());
    assert!(state.line_change(Transition::Falling));
    assert!(state.interrupt_requested());
}

#[test]
fn listen_is_refused_before_install() {
    let mut state = SharedState::new();
    assert!(!state.is_installed());
    assert_eq!(state.listen(Event::FallingEdge), Err(StateError::Uninitialized));
    assert_eq!(
        state.perform(Access::Listen(Event::FallingEdge)),
        Err(StateError::Uninitialized)
    );
    assert!(!state.is_installed());
    assert!(!state.line_change(Transition::Falling));
    assert!(!state.interrupt_requested());
    assert_eq!(edge(&mut state, Transition::Falling), None);
    assert_eq!(state.count(), 0);
    assert!(!state.is_pending());
}

#[test]
fn handler_is_refused_before_install() {
    let mut state = SharedState::new();
    assert_eq!(gpio(&mut state), Err(StateError::Uninitialized));
    assert_eq!(state.acknowledge(), Err(StateError::Uninitialized));
    assert_eq!(state.perform(Access::Acknowledge), Err(StateError::Uninitialized));
    assert_eq!(state.count(), 0);
    assert!(!state.is_pending());
    assert!(!state.is_installed());
}

#[test]
fn installed_line_is_silent_until_told_to_listen() {
    let mut state = SharedState::new();
    let pin = InputPeripheral::new(Pull::Up);
    assert_eq!(pin.pull(), Pull::Up);
    assert_eq!(pin.event(), Event::Disabled);
    assert!(!pin.is_interrupt_set());
    state.install(pin);
    assert!(state.is_installed());
    assert!(!state.line_change(Transition::Falling));
    assert!(!state.line_change(Transition::Rising));
    assert_eq!(edge(&mut state, Transition::Falling), None);
    assert_eq!(state.listen(Event::FallingEdge), Ok(()));
    assert_eq!(edge(&mut state, Transition::Falling), Some(1));
}

#[test]
fn clearing_without_pending_interrupt_is_a_no_op() {
    let mut pin = InputPeripheral::new(Pull::Down);
    pin.clear_interrupt();
    pin.clear_interrupt();
    assert_eq!(pin.pull(), Pull::Down);
    assert_eq!(pin.event(), Event::Disabled);
    assert!(!pin.is_interrupt_set());
}

#[test]
fn acknowledge_clears_interrupt_and_never_counts() {
    let mut state = startup();
    assert!(state.line_change(Transition::Falling));
    assert!(state.interrupt_requested());
    assert_eq!(state.acknowledge(), Ok(()));
    assert!(!state.interrupt_requested());
    assert!(state.is_pending());
    assert_eq!(state.count(), 0);
    assert_eq!(state.acknowledge(), Ok(()));
    assert!(!state.interrupt_requested());
    assert!(state.is_pending());
    assert_eq!(state.count(), 0);
}

#[test]
fn handler_without_pending_interrupt_still_counts_one() {
    let mut state = startup();
    assert!(!state.interrupt_requested());
    assert_eq!(gpio(&mut state), Ok(Some(1)));
    assert_eq!(gpio(&mut state), Ok(Some(2)));
    assert!(!state.is_pending());
    assert_eq!(state.count(), 2);
}

#[test]
fn drain_without_flag_does_nothing() {
    let mut state = startup();
    assert_eq!(state.drain(), None);
    assert_eq!(consume(&mut state), None);
    assert_eq!(state.count(), 0);
    let mut empty = SharedState::new();
    assert_eq!(empty.drain(), None);
    assert_eq!(empty.count(), 0);
}

#[test]
fn edge_kinds_decide_what_raises_the_interrupt() {
    let cases = [
        (Event::FallingEdge, true, false),
        (Event::RisingEdge, false, true),
        (Event::AnyEdge, true, true),
        (Event::Disabled, false, false),
    ];
    for (event, on_fall, on_rise) in cases {
        let mut state = SharedState::new();
        state.install(InputPeripheral::new(Pull::Floating));
        assert_eq!(state.listen(event), Ok(()));
        assert_eq!(state.line_change(Transition::Falling), on_fall);
        assert_eq!(state.interrupt_requested(), on_fall);
        assert_eq!(state.acknowledge(), Ok(()));
        assert_eq!(state.line_change(Transition::Rising), on_rise);
        assert_eq!(state.interrupt_requested(), on_rise);
    }
}

#[test]
fn raised_interrupt_stays_raised_until_cleared() {
    let mut state = startup();
    assert!(state.line_change(Transition::Falling));
    assert!(!state.line_change(Transition::Rising));
    assert!(state.interrupt_requested());
    assert_eq!(edge(&mut state, Transition::Rising), Some(1));
    assert!(!state.interrupt_requested());
}

#[test]
fn install_replaces_the_line_and_keeps_flag_and_count() {
    let mut state = startup();
    assert_eq!(edge(&mut state, Transition::Falling), Some(1));
    state.line_change(Transition::Falling);
    assert_eq!(state.acknowledge(), Ok(()));
    assert_eq!(state.perform(Access::Install(InputPeripheral::new(Pull::Down))), Ok(None));
    assert!(state.is_installed());
    assert!(state.is_pending());
    assert_eq!(state.count(), 1);
    assert!(!state.line_change(Transition::Falling));
    assert_eq!(state.drain(), Some(2));
}

#[test]
fn report_line_renders_decimal() {
    assert_eq!(report_line(0), "Button press count: 0");
    assert_eq!(report_line(7), "Button press count: 7");
    assert_eq!(report_line(10), "Button press count: 10");
    assert_eq!(report_line(109), "Button press count: 109");
    assert_eq!(report_line(1234567890), "Button press count: 1234567890");
    assert_eq!(report_line(u32::MAX), "Button press count: 4294967295");
}
