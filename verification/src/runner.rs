//! Driving the handoff from reset to the terminal trap.
//!
//! The machine in `machine` only decides; something still has to perform
//! the two collaborator calls.  On hardware that driver is the reset
//! vector itself; on a host it is a harness with instrumented stand-ins.
//! `run_from_reset` is that driver: it performs the whole sequence
//! against any pair of collaborators and ends in the trap, spinning for
//! a bounded number of simulated ticks.

use vstd::prelude::*;

use crate::machine::Event;
use crate::machine::Phase;
use crate::machine::Trampoline;
use crate::machine::log_of;

verus! {

/// The execution environment the assembly-level startup routine hands
/// over before the trampoline's first instruction: a valid stack and the
/// placed static memory image.  The trampoline must treat all of it as a
/// precondition it never re-establishes, so the driver takes it mutably
/// and promises to leave every bit of it alone.
#[derive(Debug, PartialEq, Eq)]
pub struct BootEnv {
    /// Whether the startup routine reported the stack pointer as set up.
    pub stack_valid: bool,
    /// The statically-initialized and zeroed memory image, as placed.
    pub static_region: Vec<u8>,
}

/// The two externally-linked routines the trampoline hands control to.
/// Their signatures are asserted, not verified, by this layer: nothing
/// is promised about what they do, which is exactly the trust boundary
/// the handoff lives with.  The application entry point must never
/// return under correct operation; if an implementation returns anyway,
/// the driver treats that as the contract violation and traps.
pub trait Collaborators {
    /// The platform initializer: brings clocks, memory and peripherals
    /// to an application-ready state, and returns exactly once.
    fn system_init(&mut self);

    /// The application entry point.  Its contract is to never return;
    /// a return is observable here only because stand-ins on a host do
    /// return, and is answered with the trap.
    fn app_main(&mut self);
}

/// Run the whole reset sequence: request and perform the initializer
/// call, then the application call, and—since coming back here at all
/// means the application returned—enter the trap and spin for
/// `spin_ticks` simulated ticks.
///
/// The environment is untouched: the trampoline never repairs or
/// re-establishes what the startup routine placed.  Afterwards each
/// collaborator has been requested exactly once, and the log is the
/// complete five-event history ending in the trap entry.
pub fn run_from_reset<C: Collaborators>(
    t: &mut Trampoline,
    env: &mut BootEnv,
    c: &mut C,
    spin_ticks: u64,
)
    requires
        old(t).wf(),
        old(t).phase is Reset,
    ensures
        final(t).wf(),
        final(t).phase is Trap,
        final(t).log@ == log_of(Phase::Trap),
        final(t).init_requests == 1,
        final(t).app_requests == 1,
        *final(env) == *old(env),
{
    t.step(Event::PowerOn);
    c.system_init();
    t.step(Event::InitReturned);
    c.app_main();
    t.step(Event::AppReturned);
    let mut tick: u64 = 0;
    while tick < spin_ticks
        invariant
            t.wf(),
            t.phase is Trap,
        decreases spin_ticks - tick,
    {
        t.step(Event::Tick);
        tick = tick + 1;
    }
}

} // verus!
