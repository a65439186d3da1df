use vstd::prelude::*;

use crate::clock::Duration;

verus! {

/// How the graceful shutdown ended.
#[derive(Clone, Copy, Debug, PartialEq, Eq, Structural)]
pub enum ShutdownResult {
    Clean,
    TimedOut,
}

/// The shutdown is clean when every phase (draining tasks, closing the
/// transports, closing the dependencies) finished and the whole sequence
/// stayed within its timeout.
pub fn shutdown_outcome(
    drained: bool,
    transports_closed: bool,
    dependencies_closed: bool,
    elapsed: Duration,
    shutdown_timeout: Duration,
) -> (r: ShutdownResult)
    ensures
        (r == ShutdownResult::Clean) == (drained && transports_closed && dependencies_closed
            && elapsed@ <= shutdown_timeout@),
{
    if drained && transports_closed && dependencies_closed && elapsed.as_millis()
        <= shutdown_timeout.as_millis() {
        ShutdownResult::Clean
    } else {
        ShutdownResult::TimedOut
    }
}

/// What is left of `shutdown_timeout` after `elapsed`, zero once it is
/// spent.
pub open spec fn phase_budget_spec(shutdown_timeout: Duration, elapsed: Duration) -> Duration {
    Duration::spec_from_millis(
        if shutdown_timeout@ >= elapsed@ {
            shutdown_timeout@ - elapsed@
        } else {
            0
        },
    )
}

/// The time a shutdown phase may still use: what is left of the timeout
/// after `elapsed`, zero once it is spent.
pub fn phase_budget(shutdown_timeout: Duration, elapsed: Duration) -> (d: Duration)
    ensures
        d@ == (if shutdown_timeout@ >= elapsed@ { shutdown_timeout@ - elapsed@ } else { 0 }),
        d == phase_budget_spec(shutdown_timeout, elapsed),
{
    let d = shutdown_timeout.saturating_sub(elapsed);
    proof {
        let m = if shutdown_timeout@ >= elapsed@ {
            shutdown_timeout@ - elapsed@
        } else {
            0
        };
        Duration::lemma_from_millis_view(m);
        Duration::lemma_view_injective(d, phase_budget_spec(shutdown_timeout, elapsed));
    }
    d
}

/// Whether a phase can start: a phase with no time left fails at once.
pub fn phase_has_time(budget: Duration) -> (r: bool)
    ensures
        r == (budget@ > 0),
{
    !budget.is_zero()
}

/// Where the graceful shutdown sequence stands: the phases run in this
/// order, each once.
#[derive(Clone, Copy, Debug, PartialEq, Eq, Structural)]
pub enum ShutdownPhase {
    Quiesce,
    DrainTasks,
    CloseTransports,
    CloseDependencies,
    Finish,
    Finished,
}

/// What the process is to do next while shutting down.
#[derive(Clone, Copy, Debug, PartialEq, Eq, Structural)]
pub enum ShutdownAction {
    /// Mark the app as shutting down, stop accepting requests and jobs,
    /// stop polling for work, and broadcast the shutdown signal.
    Quiesce,
    /// Drain tracked tasks and in-flight jobs within this budget.
    DrainTasks(Duration),
    /// Close the transport listeners within this budget.
    CloseTransports(Duration),
    /// Close external clients and dependencies within this budget.
    CloseDependencies(Duration),
    /// Mark the app stopped; the shutdown ended so.
    Finish(ShutdownResult),
}

/// The shutdown sequence as plain values.
pub struct ShutdownState {
    pub phase: ShutdownPhase,
    pub timeout: Duration,
    pub drained: bool,
    pub transports_closed: bool,
    /// Whether the phase under way started with time left.
    pub had_time: bool,
}

/// The graceful shutdown sequence: quiesce, drain, close the transports,
/// close the dependencies, finish. Each phase gets what is left of the
/// shutdown timeout, and a phase that starts with no time left fails; the
/// outcome of each phase is reported with the next step.
pub struct ShutdownSequence {
    phase: ShutdownPhase,
    timeout: Duration,
    drained: bool,
    transports_closed: bool,
    had_time: bool,
}

/// The next state and action of the sequence in `s`, `elapsed` after it
/// started, the previous phase having succeeded or not (`previous_ok`); a
/// phase that started with no time left counts as failed.
pub open spec fn shutdown_step_spec(s: ShutdownState, elapsed: Duration, previous_ok: bool) -> (
    ShutdownState,
    Option<ShutdownAction>,
) {
    let budget = phase_budget_spec(s.timeout, elapsed);
    match s.phase {
        ShutdownPhase::Quiesce => (
            ShutdownState { phase: ShutdownPhase::DrainTasks, ..s },
            Some(ShutdownAction::Quiesce),
        ),
        ShutdownPhase::DrainTasks => (
            ShutdownState { phase: ShutdownPhase::CloseTransports, had_time: budget@ > 0, ..s },
            Some(ShutdownAction::DrainTasks(budget)),
        ),
        ShutdownPhase::CloseTransports => (
            ShutdownState {
                phase: ShutdownPhase::CloseDependencies,
                drained: previous_ok && s.had_time,
                had_time: budget@ > 0,
                ..s
            },
            Some(ShutdownAction::CloseTransports(budget)),
        ),
        ShutdownPhase::CloseDependencies => (
            ShutdownState {
                phase: ShutdownPhase::Finish,
                transports_closed: previous_ok && s.had_time,
                had_time: budget@ > 0,
                ..s
            },
            Some(ShutdownAction::CloseDependencies(budget)),
        ),
        ShutdownPhase::Finish => (
            ShutdownState { phase: ShutdownPhase::Finished, ..s },
            Some(
                ShutdownAction::Finish(
                    if s.drained && s.transports_closed && previous_ok && s.had_time && elapsed@
                        <= s.timeout@ {
                        ShutdownResult::Clean
                    } else {
                        ShutdownResult::TimedOut
                    },
                ),
            ),
        ),
        ShutdownPhase::Finished => (s, None),
    }
}

impl View for ShutdownSequence {
    type V = ShutdownState;

    closed spec fn view(&self) -> ShutdownState {
        ShutdownState {
            phase: self.phase,
            timeout: self.timeout,
            drained: self.drained,
            transports_closed: self.transports_closed,
            had_time: self.had_time,
        }
    }
}

impl ShutdownSequence {
    /// A sequence about to quiesce, with `shutdown_timeout` for all of it.
    pub fn new(shutdown_timeout: Duration) -> (s: Self)
        ensures
            s@.phase == ShutdownPhase::Quiesce,
            s@.timeout == shutdown_timeout,
            !s@.drained,
            !s@.transports_closed,
            !s@.had_time,
    {
        ShutdownSequence {
            phase: ShutdownPhase::Quiesce,
            timeout: shutdown_timeout,
            drained: false,
            transports_closed: false,
            had_time: false,
        }
    }

    /// The next action, `elapsed` after the sequence started, the phase
    /// before having succeeded or not; `None` once the sequence finished.
    pub fn step(&mut self, elapsed: Duration, previous_ok: bool) -> (a: Option<ShutdownAction>)
        ensures
            (final(self)@, a) == shutdown_step_spec(old(self)@, elapsed, previous_ok),
    {
        let budget = phase_budget(self.timeout, elapsed);
        match self.phase {
            ShutdownPhase::Quiesce => {
                self.phase = ShutdownPhase::DrainTasks;
                Some(ShutdownAction::Quiesce)
            },
            ShutdownPhase::DrainTasks => {
                self.phase = ShutdownPhase::CloseTransports;
                self.had_time = phase_has_time(budget);
                Some(ShutdownAction::DrainTasks(budget))
            },
            ShutdownPhase::CloseTransports => {
                self.phase = ShutdownPhase::CloseDependencies;
                self.drained = previous_ok && self.had_time;
                self.had_time = phase_has_time(budget);
                Some(ShutdownAction::CloseTransports(budget))
            },
            ShutdownPhase::CloseDependencies => {
                self.phase = ShutdownPhase::Finish;
                self.transports_closed = previous_ok && self.had_time;
                self.had_time = phase_has_time(budget);
                Some(ShutdownAction::CloseDependencies(budget))
            },
            ShutdownPhase::Finish => {
                self.phase = ShutdownPhase::Finished;
                Some(
                    ShutdownAction::Finish(
                        shutdown_outcome(
                            self.drained,
                            self.transports_closed,
                            previous_ok && self.had_time,
                            elapsed,
                            self.timeout,
                        ),
                    ),
                )
            },
            ShutdownPhase::Finished => None,
        }
    }
}

proof fn lemma_budget_view(timeout: Duration, elapsed: Duration)
    ensures
        phase_budget_spec(timeout, elapsed)@ == (if timeout@ >= elapsed@ {
            timeout@ - elapsed@
        } else {
            0
        }),
{
    Duration::lemma_from_millis_view(
        if timeout@ >= elapsed@ {
            timeout@ - elapsed@
        } else {
            0
        },
    );
}

/// A whole shutdown run: from a fresh sequence, five steps quiesce, drain,
/// close the transports, close the dependencies and finish, in that order;
/// each phase is given what is left of the timeout when it starts, and the
/// shutdown is clean exactly when the drain and both closings each started
/// with time left and succeeded, and the sequence ended within the
/// timeout; with no timeout at all it is never clean. Nothing follows.
pub proof fn law_shutdown_runs_each_phase_once(
    timeout: Duration,
    e: Seq<Duration>,
    drained: bool,
    transports_closed: bool,
    dependencies_closed: bool,
    ok: bool,
)
    requires
        e.len() == 6,
    ensures
        ({
            let s0 = ShutdownState {
                phase: ShutdownPhase::Quiesce,
                timeout,
                drained: false,
                transports_closed: false,
                had_time: false,
            };
            let r1 = shutdown_step_spec(s0, e[0], ok);
            let r2 = shutdown_step_spec(r1.0, e[1], ok);
            let r3 = shutdown_step_spec(r2.0, e[2], drained);
            let r4 = shutdown_step_spec(r3.0, e[3], transports_closed);
            let r5 = shutdown_step_spec(r4.0, e[4], dependencies_closed);
            let r6 = shutdown_step_spec(r5.0, e[5], ok);
            &&& r1.1 == Some(ShutdownAction::Quiesce)
            &&& r2.1 == Some(ShutdownAction::DrainTasks(phase_budget_spec(timeout, e[1])))
            &&& r3.1 == Some(ShutdownAction::CloseTransports(phase_budget_spec(timeout, e[2])))
            &&& r4.1 == Some(ShutdownAction::CloseDependencies(phase_budget_spec(timeout, e[3])))
            &&& r5.1 == Some(
                ShutdownAction::Finish(
                    if drained && transports_closed && dependencies_closed && e[1]@ < timeout@
                        && e[2]@ < timeout@ && e[3]@ < timeout@ && e[4]@ <= timeout@ {
                        ShutdownResult::Clean
                    } else {
                        ShutdownResult::TimedOut
                    },
                ),
            )
            &&& r6.1 is None
            &&& timeout@ == 0 ==> r5.1 == Some(ShutdownAction::Finish(ShutdownResult::TimedOut))
        }),
{
    lemma_budget_view(timeout, e[1]);
    lemma_budget_view(timeout, e[2]);
    lemma_budget_view(timeout, e[3]);
}

} // verus!
