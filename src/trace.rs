use vstd::prelude::*;

use crate::control::{step, Control, Event, FaultInfo};

verus! {

/// Who holds control after the events of `es`, taken in order from `c`.
pub open spec fn run(c: Control, es: Seq<Event>) -> Control
    decreases es.len(),
{
    if es.len() == 0 {
        c
    } else {
        run(step(c, es[0]), es.drop_first())
    }
}

/// Once the boot process has given control away, no trace of events gives
/// it back.
proof fn lemma_control_stays_away(c: Control, es: Seq<Event>)
    requires
        !(c is BootLoader),
    ensures
        !(run(c, es) is BootLoader),
    decreases es.len(),
{
    if es.len() > 0 {
        lemma_control_stays_away(step(c, es[0]), es.drop_first());
    }
}

/// The fault handler keeps control under every trace of events.
proof fn lemma_halted_stays(es: Seq<Event>)
    ensures
        run(Control::Halted, es) == Control::Halted,
    decreases es.len(),
{
    if es.len() > 0 {
        lemma_halted_stays(es.drop_first());
    }
}

/// The entry point never returns: after the boot process enters the image,
/// whatever happens next, control never comes back to the boot process.
pub proof fn entry_never_returns(es: Seq<Event>)
    ensures
        !(run(Control::BootLoader, seq![Event::Enter] + es) is BootLoader),
{
    let t = seq![Event::Enter] + es;
    assert(t[0] == Event::Enter);
    assert(t.drop_first() =~= es);
    lemma_control_stays_away(Control::Idle, es);
}

/// The fault handler never returns: a fault with any descriptor, the empty
/// one included, raised whoever holds control, leaves the handler in control
/// under every trace of events that follows.
pub proof fn fault_handler_never_returns(c: Control, d: FaultInfo, es: Seq<Event>)
    ensures
        run(c, seq![Event::Fault(d)] + es) == Control::Halted,
{
    let t = seq![Event::Fault(d)] + es;
    assert(t[0] == Event::Fault(d));
    assert(t.drop_first() =~= es);
    lemma_halted_stays(es);
}

/// The idle loops have no effect of their own: any number of passes leaves
/// control where it was.
pub proof fn idle_passes_change_nothing(c: Control, es: Seq<Event>)
    requires
        forall|i: int| 0 <= i < es.len() ==> (#[trigger] es[i]) is Tick,
    ensures
        run(c, es) == c,
    decreases es.len(),
{
    if es.len() > 0 {
        assert(es[0] is Tick);
        let rest = es.drop_first();
        assert forall|i: int| 0 <= i < rest.len() implies (#[trigger] rest[i]) is Tick by {
            assert(rest[i] == es[i + 1]);
        }
        idle_passes_change_nothing(c, rest);
    }
}

} // verus!
