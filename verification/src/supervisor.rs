//! The supervisor: owns the engine and the front-end tasks, and decides
//! when the whole process may exit.
//!
//! The shutdown sequence has a fixed order: first wait until either the
//! engine's cancellation root is cancelled or all front-end tasks have
//! completed; from then on accept no new front-end work; then wait for
//! the interpreter to reach its idle state, raced against the root so a
//! hard stop does not hang waiting for idle; then the process may exit.
//!
//! The waiting itself is asynchronous and belongs to the host; the
//! supervisor here is the decision function the host polls with what it
//! observed.

use vstd::prelude::*;

use crate::cancellation::TokenId;
use crate::engine::Engine;

verus! {

/// Where the shutdown sequence stands.
#[derive(Clone, Copy, Debug, PartialEq, Eq, Structural)]
pub enum ShutdownPhase {
    /// Waiting for the root to be cancelled or the front-end tasks to
    /// complete; front-end work is still accepted.
    WaitingFront,
    /// No new front-end work; waiting for the interpreter to go idle, or
    /// for the root.
    Draining,
    /// The process may exit.
    Done,
}

/// What the host observed when it polled.
#[derive(Clone, Copy, Debug, PartialEq, Eq, Structural)]
pub struct ShutdownObservation {
    /// The engine's cancellation root is cancelled.
    pub root_cancelled: bool,
    /// Every front-end task has completed.
    pub front_tasks_done: bool,
    /// The interpreter has no pending jobs, microtasks or timers.
    pub interpreter_idle: bool,
}

/// The next phase after observing `obs` in `phase`.
pub open spec fn shutdown_next(phase: ShutdownPhase, obs: ShutdownObservation) -> ShutdownPhase {
    match phase {
        ShutdownPhase::WaitingFront => if obs.root_cancelled || obs.front_tasks_done {
            ShutdownPhase::Draining
        } else {
            ShutdownPhase::WaitingFront
        },
        ShutdownPhase::Draining => if obs.root_cancelled || obs.interpreter_idle {
            ShutdownPhase::Done
        } else {
            ShutdownPhase::Draining
        },
        ShutdownPhase::Done => ShutdownPhase::Done,
    }
}

/// The phases in their order; shutdown never moves backwards.
pub open spec fn phase_rank(phase: ShutdownPhase) -> int {
    match phase {
        ShutdownPhase::WaitingFront => 0,
        ShutdownPhase::Draining => 1,
        ShutdownPhase::Done => 2,
    }
}

/// Shutdown is monotone, and a cancelled root drives it home: from any
/// phase, two polls that observe the cancelled root reach `Done` — the
/// sequence cannot hang waiting for front-end work or for idle.
pub proof fn lemma_cancelled_root_finishes_shutdown(phase: ShutdownPhase, o1: ShutdownObservation, o2: ShutdownObservation)
    ensures
        phase_rank(shutdown_next(phase, o1)) >= phase_rank(phase),
        o1.root_cancelled && o2.root_cancelled ==> shutdown_next(shutdown_next(phase, o1), o2)
            == ShutdownPhase::Done,
{
}

/// The application: the engine, the front-end flag, and where shutdown
/// stands.
pub struct App {
    /// The engine the supervisor drives.
    pub engine: Engine,
    /// A line-reading front end was started.
    pub repl: bool,
    /// Where the shutdown sequence stands.
    pub phase: ShutdownPhase,
}

impl App {
    /// A supervisor over a fresh engine: no front end yet, shutdown not
    /// begun.
    pub fn new(engine: Engine) -> (r: App)
        ensures
            r.engine == engine,
            !r.repl,
            r.phase == ShutdownPhase::WaitingFront,
    {
        App { engine, repl: false, phase: ShutdownPhase::WaitingFront }
    }

    /// Start the line-reading front end: the session runs under a fresh
    /// child of the engine's root, so stopping the engine reaches it.
    pub fn start_repl_session(&mut self) -> (t: TokenId)
        requires
            old(self).engine.wired(),
        ensures
            final(self).engine.wired(),
            final(self).repl,
            final(self).phase == old(self).phase,
            final(self).engine.tree.holds(t),
            final(self).engine.tree.parent_of(t) == Some(final(self).engine.root),
            final(self).engine.tree.cancelled(t) == old(self).engine.stopped(),
            final(self).engine.stopped() == old(self).engine.stopped(),
    {
        self.repl = true;
        self.engine.operation_token()
    }

    /// The external interrupt signal: stop the engine. Wired to fire on
    /// every signal; cancellation's idempotence makes repeats harmless.
    pub fn hook_ctrlc_handler(&mut self)
        requires
            old(self).engine.wired(),
        ensures
            final(self).engine.wired(),
            final(self).engine.stopped(),
            final(self).repl == old(self).repl,
            final(self).phase == old(self).phase,
    {
        self.engine.stop();
    }

    /// One poll of the shutdown sequence: move the phase by what the host
    /// observed, and say whether the process may exit.
    pub fn run_until_end_step(&mut self, obs: ShutdownObservation) -> (done: bool)
        ensures
            final(self).phase == shutdown_next(old(self).phase, obs),
            done == (final(self).phase == ShutdownPhase::Done),
            final(self).engine == old(self).engine,
            final(self).repl == old(self).repl,
    {
        let next = match self.phase {
            ShutdownPhase::WaitingFront => {
                if obs.root_cancelled || obs.front_tasks_done {
                    ShutdownPhase::Draining
                } else {
                    ShutdownPhase::WaitingFront
                }
            },
            ShutdownPhase::Draining => {
                if obs.root_cancelled || obs.interpreter_idle {
                    ShutdownPhase::Done
                } else {
                    ShutdownPhase::Draining
                }
            },
            ShutdownPhase::Done => ShutdownPhase::Done,
        };
        self.phase = next;
        match self.phase {
            ShutdownPhase::Done => true,
            _ => false,
        }
    }
}

} // verus!
