use blog_os::{next, Control, Event, FaultInfo, Location};

fn located(message: &str) -> FaultInfo {
    FaultInfo {
        message: Some(message.to_string()),
        location: Some(Location { file: "kernel.rs".to_string(), line: 12, column: 5 }),
    }
}

#[test]
fn entry_hands_control_to_idle_loop() {
    assert_eq!(next(Control::BootLoader, &Event::Enter), Control::Idle);
}

#[test]
fn pass_before_entry_leaves_boot_loader_in_control() {
    assert_eq!(next(Control::BootLoader, &Event::Tick), Control::BootLoader);
}

#[test]
fn entry_never_gives_control_back() {
    let mut c = next(Control::BootLoader, &Event::Enter);
    let events = vec![Event::Tick, Event::Enter, Event::Tick, Event::Fault(FaultInfo::empty()), Event::Enter];
    for e in events.iter() {
        c = next(c, e);
        assert_ne!(c, Control::BootLoader);
    }
}

#[test]
fn idle_loop_passes_change_nothing() {
    let mut c = next(Control::BootLoader, &Event::Enter);
    for _ in 0..10_000 {
        c = next(c, &Event::Tick);
        assert_eq!(c, Control::Idle);
    }
}

#[test]
fn handler_loop_passes_change_nothing() {
    let mut c = Control::Halted;
    for _ in 0..10_000 {
        c = next(c, &Event::Tick);
    }
    assert_eq!(c, Control::Halted);
}

#[test]
fn empty_descriptor_carries_nothing() {
    let d = FaultInfo::empty();
    assert!(d.message.is_none());
    assert!(d.location.is_none());
}

#[test]
fn fault_with_empty_descriptor_halts() {
    assert_eq!(next(Control::Idle, &Event::Fault(FaultInfo::empty())), Control::Halted);
}

#[test]
fn fault_with_diagnostic_halts() {
    assert_eq!(next(Control::Idle, &Event::Fault(located("index out of bounds"))), Control::Halted);
}

#[test]
fn fault_before_entry_goes_to_handler() {
    assert_eq!(next(Control::BootLoader, &Event::Fault(FaultInfo::empty())), Control::Halted);
}

#[test]
fn fault_handler_never_returns_under_any_event() {
    let mut c = next(Control::Idle, &Event::Fault(FaultInfo::empty()));
    let events = vec![Event::Enter, Event::Tick, Event::Fault(located("second fault")), Event::Enter, Event::Tick];
    for e in events.iter() {
        c = next(c, e);
        assert_eq!(c, Control::Halted);
    }
}
