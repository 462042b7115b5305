//! The reset-to-main handoff as an explicit state machine.
//!
//! The machine is strictly linear: `Reset` to `RuntimeInit` to
//! `AppRunning`, with the terminal `Trap` phase reachable only through a
//! contract violation (the application entry point returning).  Every
//! transition is driven by an event and emits at most one action for the
//! driver to perform; the machine records what happened in an event log.

use vstd::prelude::*;

verus! {

/// The phase the trampoline is in.  The device's whole correct lifetime
/// is spent in `AppRunning`; `Trap` exists only to give a defined, safe
/// meaning to the forbidden case of the application returning.
#[derive(Clone, Copy, Debug, PartialEq, Eq, Structural)]
pub enum Phase {
    /// Entered by the hardware reset vector; nothing has run yet.
    Reset,
    /// The platform initializer is executing.
    RuntimeInit,
    /// The application entry point is executing.
    AppRunning,
    /// Terminal spin state, reached only if the application returns.
    Trap,
}

/// What the outside world reports to the machine.
#[derive(Clone, Copy, Debug, PartialEq, Eq, Structural)]
pub enum Event {
    /// Hardware dispatched the reset vector.
    PowerOn,
    /// The platform initializer completed (it returns exactly once).
    InitReturned,
    /// The application entry point returned: a contract violation.
    AppReturned,
    /// One scheduling tick while spinning in the trap.
    Tick,
}

/// What the driver must do next, as instructed by the machine.
#[derive(Clone, Copy, Debug, PartialEq, Eq, Structural)]
pub enum Action {
    /// Invoke the platform initializer, synchronously, with no arguments.
    CallInit,
    /// Invoke the application entry point, synchronously, with no arguments.
    CallApp,
    /// Spin: perform nothing, forever.
    Spin,
}

/// One recorded step of the handoff.
#[derive(Clone, Copy, Debug, PartialEq, Eq, Structural)]
pub enum LogEvent {
    /// The initializer was invoked.
    InitCalled,
    /// The initializer completed.
    InitDone,
    /// The application entry point was invoked.
    AppCalled,
    /// The application entry point returned (the violation).
    AppReturned,
    /// The trap state was entered.
    TrapEntered,
}

/// The trampoline's whole observable state: the phase, how many times it
/// has requested each collaborator, and the event log.
#[derive(Clone, Debug, PartialEq, Eq)]
pub struct Trampoline {
    pub phase: Phase,
    pub init_requests: u64,
    pub app_requests: u64,
    pub log: Vec<LogEvent>,
}

/// The exact log a well-formed trampoline carries in each phase.  The
/// machine is linear, so the phase determines the whole history.
pub open spec fn log_of(p: Phase) -> Seq<LogEvent> {
    match p {
        Phase::Reset => seq![],
        Phase::RuntimeInit => seq![LogEvent::InitCalled],
        Phase::AppRunning => seq![
            LogEvent::InitCalled,
            LogEvent::InitDone,
            LogEvent::AppCalled,
        ],
        Phase::Trap => seq![
            LogEvent::InitCalled,
            LogEvent::InitDone,
            LogEvent::AppCalled,
            LogEvent::AppReturned,
            LogEvent::TrapEntered,
        ],
    }
}

/// How many times the initializer has been requested in each phase.
pub open spec fn init_count_of(p: Phase) -> int {
    if p is Reset {
        0
    } else {
        1
    }
}

/// How many times the application entry point has been requested in each
/// phase.
pub open spec fn app_count_of(p: Phase) -> int {
    match p {
        Phase::Reset | Phase::RuntimeInit => 0,
        Phase::AppRunning | Phase::Trap => 1,
    }
}

/// Whether an event is the one the machine is waiting for in a phase.
/// Anything else is noise from the driver and is ignored.
pub open spec fn event_expected(p: Phase, ev: Event) -> bool {
    match (p, ev) {
        (Phase::Reset, Event::PowerOn) => true,
        (Phase::RuntimeInit, Event::InitReturned) => true,
        (Phase::AppRunning, Event::AppReturned) => true,
        (Phase::Trap, Event::Tick) => true,
        _ => false,
    }
}

/// The phase after one event.  An expected event advances the linear
/// sequence (the trap only back to itself); an unexpected one changes
/// nothing.
pub open spec fn next_phase(p: Phase, ev: Event) -> Phase {
    if event_expected(p, ev) {
        match p {
            Phase::Reset => Phase::RuntimeInit,
            Phase::RuntimeInit => Phase::AppRunning,
            Phase::AppRunning => Phase::Trap,
            Phase::Trap => Phase::Trap,
        }
    } else {
        p
    }
}

/// The action an event elicits: the call request on entering each phase,
/// the spin order while trapped, and nothing for an unexpected event.
pub open spec fn action_of(p: Phase, ev: Event) -> Option<Action> {
    if event_expected(p, ev) {
        match p {
            Phase::Reset => Some(Action::CallInit),
            Phase::RuntimeInit => Some(Action::CallApp),
            Phase::AppRunning => Some(Action::Spin),
            Phase::Trap => Some(Action::Spin),
        }
    } else {
        None
    }
}

impl Trampoline {
    /// A reachable trampoline state: log and counters agree with the phase.
    pub open spec fn wf(self) -> bool {
        &&& self.log@ == log_of(self.phase)
        &&& self.init_requests == init_count_of(self.phase)
        &&& self.app_requests == app_count_of(self.phase)
    }

    /// A fresh machine, as hardware reset leaves it: nothing run, nothing
    /// logged.
    pub fn new() -> (t: Trampoline)
        ensures
            t.wf(),
            t.phase is Reset,
            t.log@ == Seq::<LogEvent>::empty(),
            t.init_requests == 0,
            t.app_requests == 0,
    {
        let t = Trampoline {
            phase: Phase::Reset,
            init_requests: 0,
            app_requests: 0,
            log: Vec::new(),
        };
        proof {
            assert(t.log@ =~= log_of(Phase::Reset));
        }
        t
    }

    /// Feed one event to the machine.  The returned action, the next
    /// phase, the counters and the log are all pinned down by the current
    /// phase and the event; an unexpected event changes nothing and
    /// returns no action.  The log only ever grows.
    pub fn step(&mut self, ev: Event) -> (r: Option<Action>)
        requires
            old(self).wf(),
        ensures
            final(self).wf(),
            final(self).phase == next_phase(old(self).phase, ev),
            r == action_of(old(self).phase, ev),
            old(self).log@.is_prefix_of(final(self).log@),
    {
        match (self.phase, ev) {
            (Phase::Reset, Event::PowerOn) => {
                self.phase = Phase::RuntimeInit;
                self.init_requests = self.init_requests + 1;
                self.log.push(LogEvent::InitCalled);
                proof {
                    assert(self.log@ =~= log_of(Phase::RuntimeInit));
                }
                Some(Action::CallInit)
            }
            (Phase::RuntimeInit, Event::InitReturned) => {
                self.phase = Phase::AppRunning;
                self.app_requests = self.app_requests + 1;
                self.log.push(LogEvent::InitDone);
                self.log.push(LogEvent::AppCalled);
                proof {
                    assert(self.log@ =~= log_of(Phase::AppRunning));
                }
                Some(Action::CallApp)
            }
            (Phase::AppRunning, Event::AppReturned) => {
                self.phase = Phase::Trap;
                self.log.push(LogEvent::AppReturned);
                self.log.push(LogEvent::TrapEntered);
                proof {
                    assert(self.log@ =~= log_of(Phase::Trap));
                }
                Some(Action::Spin)
            }
            (Phase::Trap, Event::Tick) => Some(Action::Spin),
            _ => None,
        }
    }
}

/// The phase after a whole sequence of events, first event first.
pub open spec fn phase_after(p: Phase, evs: Seq<Event>) -> Phase
    decreases evs.len(),
{
    if evs.len() == 0 {
        p
    } else {
        phase_after(next_phase(p, evs[0]), evs.drop_first())
    }
}

/// The log never shrinks and never rewrites: each transition leaves the
/// recorded history as a prefix of the new one.
pub proof fn lemma_log_append_only(p: Phase, ev: Event)
    ensures
        log_of(p).is_prefix_of(log_of(next_phase(p, ev))),
{
}

/// Ordering invariant: whenever the log records the application entry
/// point being invoked, the initializer's completion stands strictly
/// earlier in the same log.
pub proof fn lemma_init_done_before_app_called(t: Trampoline, i: int)
    requires
        t.wf(),
        0 <= i < t.log@.len(),
        t.log@[i] == LogEvent::AppCalled,
    ensures
        exists|j: int| 0 <= j < i && t.log@[j] == LogEvent::InitDone,
{
    assert(0 <= 1 < i && t.log@[1] == LogEvent::InitDone);
}

/// Exactly-once invariant, the bound that holds in every reachable
/// state: neither collaborator is ever requested twice, and the
/// application is never requested before the initializer.
pub proof fn lemma_collaborators_at_most_once(t: Trampoline)
    requires
        t.wf(),
    ensures
        t.init_requests <= 1,
        t.app_requests <= 1,
        t.app_requests <= t.init_requests,
{
}

/// Exactly-once invariant, once the handoff has completed its two calls:
/// from the moment the application starts, each collaborator has been
/// requested exactly one time.
pub proof fn lemma_exactly_once_after_handoff(t: Trampoline)
    requires
        t.wf(),
        t.phase is AppRunning || t.phase is Trap,
    ensures
        t.init_requests == 1,
        t.app_requests == 1,
{
}

/// The trap is terminal: no sequence of later events, of any length and
/// in any order, ever leaves it.
pub proof fn lemma_trap_is_terminal(evs: Seq<Event>)
    ensures
        phase_after(Phase::Trap, evs) is Trap,
    decreases evs.len(),
{
    if evs.len() > 0 {
        lemma_trap_is_terminal(evs.drop_first());
    }
}

/// Non-return invariant: if the application entry point returns despite
/// its contract, the very next phase is the trap; entering the trap is
/// the last event the log ever records, and nothing that happens
/// afterwards changes the phase or the log.
pub proof fn lemma_violation_enters_trap(t: Trampoline, evs: Seq<Event>)
    requires
        t.wf(),
        t.phase is AppRunning,
    ensures
        next_phase(t.phase, Event::AppReturned) is Trap,
        log_of(Phase::Trap).last() == LogEvent::TrapEntered,
        phase_after(Phase::Trap, evs) is Trap,
        log_of(phase_after(Phase::Trap, evs)) == log_of(Phase::Trap),
{
    lemma_trap_is_terminal(evs);
}

/// Idempotence of the trap: a scheduling tick taken in the trap phase is
/// a true fixed point.  Any well-formed state one tick later carries the
/// same phase, the same log and the same counters.
pub proof fn lemma_trap_tick_fixed_point(before: Trampoline, after: Trampoline)
    requires
        before.wf(),
        before.phase is Trap,
        after.wf(),
        after.phase == next_phase(before.phase, Event::Tick),
    ensures
        after.phase == before.phase,
        after.log@ == before.log@,
        after.init_requests == before.init_requests,
        after.app_requests == before.app_requests,
{
}

} // verus!
