//! The two-stage shutdown coordinator.
//!
//! The daemon has no success exit: it runs until signaled. The first
//! termination signal starts a graceful drain of outstanding work, racing
//! against a second signal; a second signal forces immediate termination
//! with the conventional Unix exit code `128 +` the signal's number. The
//! coordinator here decides; the driving shell listens for signals, awaits
//! the drain, and performs the returned action.

use vstd::prelude::*;

verus! {

/// Exit-code base for death-by-signal, per Unix convention.
pub const SIGNAL_EXIT_BASE: i32 = 128;

/// The two termination signals the daemon recognizes.
#[derive(Debug, Clone, Copy, PartialEq, Eq, Structural)]
pub enum TermSignal {
    /// Interactive interrupt (SIGINT).
    Interrupt,
    /// Termination request (SIGTERM).
    Terminate,
}

impl TermSignal {
    /// The signal's Unix number.
    pub open spec fn spec_number(self) -> int {
        match self {
            TermSignal::Interrupt => 2,
            TermSignal::Terminate => 15,
        }
    }

    /// The signal's Unix number.
    pub fn number(self) -> (n: i32)
        ensures
            n == self.spec_number(),
    {
        match self {
            TermSignal::Interrupt => 2,
            TermSignal::Terminate => 15,
        }
    }
}

/// Where the coordinator stands.
#[derive(Debug, Clone, Copy, PartialEq, Eq, Structural)]
pub enum ShutdownPhase {
    /// No termination signal seen yet.
    Running,
    /// First signal seen; draining outstanding work, racing a second signal.
    Draining,
    /// Shutdown decided, by drain completion or by a second signal.
    Terminated,
}

/// What the coordinator observes.
#[derive(Debug, Clone, Copy, PartialEq, Eq, Structural)]
pub enum ShutdownEvent {
    /// A termination signal arrived.
    Signal { signal: TermSignal },
    /// The process task queue's consumer reached quiescence.
    DrainComplete,
}

/// What the driving shell must do after one observation.
#[derive(Debug, Clone, Copy, PartialEq, Eq, Structural)]
pub enum ShutdownAction {
    /// Log the intent and start the race between drain completion and a
    /// second signal.
    BeginDrain,
    /// Terminate the process immediately with this exit code, bypassing any
    /// further drain.
    Exit { code: i32 },
    /// The drain finished: proceed with the orderly shutdown.
    FinishShutdown,
    /// Nothing to do.
    Ignore,
}

/// The coordinator's transition table: phase and observation to next phase
/// and action. A second signal during the drain wins the race and forces an
/// exit with `128 +` that signal's number; drain completion wins it and
/// lets shutdown proceed.
pub open spec fn spec_shutdown_step(phase: ShutdownPhase, ev: ShutdownEvent) -> (
    ShutdownPhase,
    ShutdownAction,
) {
    match (phase, ev) {
        (ShutdownPhase::Running, ShutdownEvent::Signal { signal }) => (
            ShutdownPhase::Draining,
            ShutdownAction::BeginDrain,
        ),
        (ShutdownPhase::Running, ShutdownEvent::DrainComplete) => (
            ShutdownPhase::Running,
            ShutdownAction::Ignore,
        ),
        (ShutdownPhase::Draining, ShutdownEvent::Signal { signal }) => (
            ShutdownPhase::Terminated,
            ShutdownAction::Exit { code: (SIGNAL_EXIT_BASE + signal.spec_number()) as i32 },
        ),
        (ShutdownPhase::Draining, ShutdownEvent::DrainComplete) => (
            ShutdownPhase::Terminated,
            ShutdownAction::FinishShutdown,
        ),
        (ShutdownPhase::Terminated, _) => (ShutdownPhase::Terminated, ShutdownAction::Ignore),
    }
}

/// Owner of the shutdown phase.
pub struct ShutdownCoordinator {
    /// Current phase.
    pub phase: ShutdownPhase,
}

impl ShutdownCoordinator {
    /// A fresh coordinator: no signal seen yet.
    pub fn new() -> (r: ShutdownCoordinator)
        ensures
            r.phase == ShutdownPhase::Running,
    {
        ShutdownCoordinator { phase: ShutdownPhase::Running }
    }

    /// Advances the coordinator by one observation and returns the action
    /// the shell must perform.
    pub fn step(&mut self, ev: ShutdownEvent) -> (action: ShutdownAction)
        ensures
            ({
                let (phase, act) = spec_shutdown_step(old(self).phase, ev);
                &&& final(self).phase == phase
                &&& action == act
            }),
    {
        match (self.phase, ev) {
            (ShutdownPhase::Running, ShutdownEvent::Signal { signal: _ }) => {
                self.phase = ShutdownPhase::Draining;
                ShutdownAction::BeginDrain
            },
            (ShutdownPhase::Running, ShutdownEvent::DrainComplete) => ShutdownAction::Ignore,
            (ShutdownPhase::Draining, ShutdownEvent::Signal { signal }) => {
                self.phase = ShutdownPhase::Terminated;
                ShutdownAction::Exit { code: SIGNAL_EXIT_BASE + signal.number() }
            },
            (ShutdownPhase::Draining, ShutdownEvent::DrainComplete) => {
                self.phase = ShutdownPhase::Terminated;
                ShutdownAction::FinishShutdown
            },
            (ShutdownPhase::Terminated, _) => ShutdownAction::Ignore,
        }
    }
}

/// Escalation law: from a running coordinator, two termination signals in
/// succession — the drain not yet complete — always end in `Terminated`
/// with an immediate exit whose code is `128 +` the second signal's number.
pub proof fn lemma_second_signal_forces_exit(first: TermSignal, second: TermSignal)
    ensures
        ({
            let (p1, a1) = spec_shutdown_step(
                ShutdownPhase::Running,
                ShutdownEvent::Signal { signal: first },
            );
            let (p2, a2) = spec_shutdown_step(p1, ShutdownEvent::Signal { signal: second });
            &&& a1 == ShutdownAction::BeginDrain
            &&& p2 == ShutdownPhase::Terminated
            &&& a2 == (ShutdownAction::Exit {
                code: (SIGNAL_EXIT_BASE + second.spec_number()) as i32,
            })
        }),
{
}

} // verus!
