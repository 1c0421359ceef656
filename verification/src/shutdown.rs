//! Shutdown sequencing: Running, then Draining on the first termination
//! signal, then Stopped once a fixed grace window has elapsed. Entering
//! Draining flips `accepting` off and forces every gate false, so both the
//! readiness surface and any gate-dependent check report not-ready at once. A
//! second signal changes nothing: the transition is one-shot. The window is a
//! fixed timed allowance, not a queue-empty barrier.

use vstd::prelude::*;

use crate::readiness::Readiness;

verus! {

/// Grace window used when configuration supplies none, in milliseconds.
pub const DEFAULT_GRACE_MS: u64 = 2000;

#[derive(Clone, Copy, PartialEq, Eq, Structural, Debug)]
pub enum ShutdownPhase {
    Running,
    Draining,
    Stopped,
}

/// What one termination signal does to the phase and the readiness state:
/// from Running it starts draining and clears everything; in any other phase
/// it is a no-op.
pub open spec fn signal_transition(phase: ShutdownPhase, r: Readiness) -> (ShutdownPhase, Readiness) {
    if phase is Running {
        (ShutdownPhase::Draining, (Readiness { accepting: false, disk_ok: false, mqtt_ok: false }))
    } else {
        (phase, r)
    }
}

/// Law: shutdown idempotence. Once a signal has been handled, handling another
/// changes neither the phase nor the readiness state; in particular a second
/// signal after entering Draining does not re-run gate clearing.
pub proof fn lemma_signal_idempotent(phase: ShutdownPhase, r: Readiness)
    ensures
        signal_transition(signal_transition(phase, r).0, signal_transition(phase, r).1)
            == signal_transition(phase, r),
{
}

/// Watches for the termination signal and sequences the drain. The signal
/// waiting and the timer live outside the core; this holds the phase and the
/// grace window and performs the transitions.
pub struct ShutdownOrchestrator {
    phase: ShutdownPhase,
    grace_ms: u64,
}

impl ShutdownOrchestrator {
    pub closed spec fn spec_phase(&self) -> ShutdownPhase {
        self.phase
    }

    pub closed spec fn spec_grace_ms(&self) -> u64 {
        self.grace_ms
    }

    pub fn new(grace_ms: Option<u64>) -> (s: Self)
        ensures
            s.spec_phase() == ShutdownPhase::Running,
            s.spec_grace_ms() == if grace_ms is Some {
                grace_ms->0
            } else {
                DEFAULT_GRACE_MS
            },
    {
        let g: u64 = match grace_ms {
            Some(g) => g,
            None => DEFAULT_GRACE_MS,
        };
        ShutdownOrchestrator { phase: ShutdownPhase::Running, grace_ms: g }
    }

    pub fn phase(&self) -> (p: ShutdownPhase)
        ensures
            p == self.spec_phase(),
    {
        self.phase
    }

    /// How long the process stays alive after draining begins, before the
    /// listener may close.
    pub fn grace_window_ms(&self) -> (g: u64)
        ensures
            g == self.spec_grace_ms(),
    {
        self.grace_ms
    }

    /// Handles one termination signal: exactly the `signal_transition` step.
    /// Only the first signal transitions (and reports true); later ones leave
    /// the phase, the readiness state and the grace window untouched.
    pub fn on_signal(&mut self, ready: &mut Readiness) -> (transitioned: bool)
        ensures
            final(self).spec_grace_ms() == old(self).spec_grace_ms(),
            transitioned == (old(self).spec_phase() is Running),
            (final(self).spec_phase(), *final(ready)) == signal_transition(
                old(self).spec_phase(),
                *old(ready),
            ),
    {
        match self.phase {
            ShutdownPhase::Running => {
                self.phase = ShutdownPhase::Draining;
                ready.set_accepting(false);
                ready.set_disk_ok(false);
                ready.set_mqtt_ok(false);
                true
            },
            _ => false,
        }
    }

    /// The grace window has elapsed: a draining gateway stops; any other phase
    /// is unaffected. Returns whether the process may now stop.
    pub fn on_grace_elapsed(&mut self) -> (stopped: bool)
        ensures
            final(self).spec_grace_ms() == old(self).spec_grace_ms(),
            final(self).spec_phase() == if old(self).spec_phase() is Draining {
                ShutdownPhase::Stopped
            } else {
                old(self).spec_phase()
            },
            stopped == (final(self).spec_phase() is Stopped),
    {
        match self.phase {
            ShutdownPhase::Draining => {
                self.phase = ShutdownPhase::Stopped;
                true
            },
            ShutdownPhase::Stopped => true,
            ShutdownPhase::Running => false,
        }
    }
}

} // verus!
