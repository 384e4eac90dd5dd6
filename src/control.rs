use vstd::prelude::*;

verus! {

/// Where in the source an unrecoverable fault was raised.
#[derive(Clone, Debug)]
pub struct Location {
    pub file: String,
    pub line: u32,
    pub column: u32,
}

/// What is known at the point of an unrecoverable fault. The fault handler
/// accepts it and reads none of it: no output is available to report it on.
#[derive(Clone, Debug)]
pub struct FaultInfo {
    pub message: Option<String>,
    pub location: Option<Location>,
}

impl FaultInfo {
    /// A descriptor that carries no diagnostic at all.
    pub fn empty() -> (r: FaultInfo)
        ensures
            r.message is None,
            r.location is None,
    {
        FaultInfo { message: None, location: None }
    }
}

/// Who holds the single thread of control.
#[derive(Clone, Copy, Debug, PartialEq, Eq, Structural)]
pub enum Control {
    /// The boot process: the image is loaded, its entry not yet taken.
    BootLoader,
    /// The entry point's idle loop.
    Idle,
    /// The fault handler's idle loop, from which nothing escalates.
    Halted,
}

/// What can happen to the thread of control.
#[derive(Clone, Debug)]
pub enum Event {
    /// The boot process transfers control to the entry symbol.
    Enter,
    /// An unrecoverable fault is raised, with what is known of it.
    Fault(FaultInfo),
    /// One more pass of whichever loop holds control.
    Tick,
}

/// The transition of the control contract.
///
/// Every fault goes to the handler, whoever held control; the handler is
/// terminal. Entry hands control from the boot process to the idle loop.
/// A pass of a loop changes nothing.
pub open spec fn step(c: Control, e: Event) -> Control {
    if c is Halted {
        Control::Halted
    } else {
        match e {
            Event::Fault(_) => Control::Halted,
            Event::Enter => Control::Idle,
            Event::Tick => c,
        }
    }
}

/// Decides who holds control after `e`.
pub fn next(c: Control, e: &Event) -> (r: Control)
    ensures
        r == step(c, *e),
        c is Halted ==> r is Halted,
        e is Fault ==> r is Halted,
        !(c is Halted) && e is Enter ==> r is Idle,
        e is Tick ==> r == c,
{
    match c {
        Control::Halted => Control::Halted,
        _ => match e {
            Event::Fault(_) => Control::Halted,
            Event::Enter => Control::Idle,
            Event::Tick => c,
        },
    }
}

} // verus!
