//! The orchestrator: the state machine of the main loop.
//!
//! The loop runs the configured command once at startup, then waits for
//! either a trigger from the watcher or an interrupt, whichever comes
//! first. Command runs are serialized: a trigger arriving while a run is in
//! flight is remembered and processed after the run completes, never
//! concurrently with it. An interrupt never aborts a run in flight; it is
//! acted on once the run completes, and immediately when the loop is idle.
//!
//! The loop itself — the select over the trigger channel and the interrupt
//! signal, and the awaiting of the child process — lives outside the
//! library. It reports each event here and performs the action this state
//! machine hands back.

use vstd::prelude::*;

verus! {

/// The phase of the orchestrator.
#[derive(Clone, Copy, PartialEq, Eq, Structural, Debug)]
pub enum Phase {
    /// Waiting for the next trigger or interrupt; no run in flight.
    Idle,
    /// A command run is in flight.
    Running,
    /// An interrupt was acted on; watching stops and the loop winds down.
    ShuttingDown,
    /// The loop has ended.
    Terminated,
}

/// One event the main loop can observe.
#[derive(Clone, Copy, PartialEq, Eq, Structural, Debug)]
pub enum LoopEvent {
    /// The watcher delivered a trigger.
    Trigger,
    /// The user sent an interrupt.
    Interrupt,
    /// The run in flight completed (with whatever outcome: a failed run
    /// does not stop the loop).
    RunFinished,
}

/// What the loop must do next.
#[derive(Clone, Copy, PartialEq, Eq, Structural, Debug)]
pub enum Action {
    /// Start one command run.
    StartRun,
    /// Wait for the next trigger or interrupt.
    Wait,
    /// Do nothing now; the event was remembered and is acted on when the
    /// run in flight completes.
    Defer,
    /// Stop watching and end the loop.
    Shutdown,
}

/// The orchestrator's state. `trigger_pending` remembers a trigger that
/// arrived during a run; `interrupt_pending` an interrupt that did.
#[derive(Clone, Copy, PartialEq, Eq, Structural, Debug)]
pub struct Orchestrator {
    pub phase: Phase,
    pub startup_done: bool,
    pub trigger_pending: bool,
    pub interrupt_pending: bool,
}

/// The state before anything ran: idle, the startup run still owed.
pub open spec fn initial_orchestrator() -> Orchestrator {
    Orchestrator { phase: Phase::Idle, startup_done: false, trigger_pending: false, interrupt_pending: false }
}

/// Whether the loop may report `ev` in state `s`: events are processed
/// only after the startup run began, a run can finish only while one is in
/// flight, and nothing arrives once shutdown began.
pub open spec fn event_enabled(s: Orchestrator, ev: LoopEvent) -> bool {
    &&& s.startup_done
    &&& if ev == LoopEvent::RunFinished {
        s.phase == Phase::Running
    } else {
        s.phase == Phase::Idle || s.phase == Phase::Running
    }
}

/// The transition function of the main loop: from a state and an observed
/// event to the next state and the action the loop performs.
///
/// While a run is in flight, a trigger or an interrupt is only remembered
/// (`Defer`): the run is never aborted and no second run starts. When a run
/// finishes, a remembered interrupt wins over a remembered trigger: the
/// loop shuts down rather than running once more.
pub open spec fn step(s: Orchestrator, ev: LoopEvent) -> (Orchestrator, Action) {
    match ev {
        LoopEvent::Trigger => {
            if s.phase == Phase::Idle {
                (Orchestrator { phase: Phase::Running, ..s }, Action::StartRun)
            } else {
                (Orchestrator { trigger_pending: true, ..s }, Action::Defer)
            }
        },
        LoopEvent::Interrupt => {
            if s.phase == Phase::Idle {
                (Orchestrator { phase: Phase::ShuttingDown, ..s }, Action::Shutdown)
            } else {
                (Orchestrator { interrupt_pending: true, ..s }, Action::Defer)
            }
        },
        LoopEvent::RunFinished => {
            if s.interrupt_pending {
                (Orchestrator { phase: Phase::ShuttingDown, ..s }, Action::Shutdown)
            } else if s.trigger_pending {
                (Orchestrator { trigger_pending: false, ..s }, Action::StartRun)
            } else {
                (Orchestrator { phase: Phase::Idle, ..s }, Action::Wait)
            }
        },
    }
}

impl Orchestrator {
    /// A fresh orchestrator; nothing has run yet.
    pub fn new() -> (s: Self)
        ensures
            s == initial_orchestrator(),
    {
        Orchestrator {
            phase: Phase::Idle,
            startup_done: false,
            trigger_pending: false,
            interrupt_pending: false,
        }
    }

    /// Begin the one unconditional startup run. It precedes every loop
    /// event: no event is enabled before this ran.
    pub fn begin_startup_run(&mut self) -> (a: Action)
        requires
            old(self).phase == Phase::Idle,
            !old(self).startup_done,
        ensures
            a == Action::StartRun,
            *final(self) == (Orchestrator { phase: Phase::Running, startup_done: true, ..*old(self) }),
    {
        self.phase = Phase::Running;
        self.startup_done = true;
        Action::StartRun
    }

    /// Report one observed event; returns the action the loop performs.
    pub fn on_event(&mut self, ev: LoopEvent) -> (a: Action)
        requires
            event_enabled(*old(self), ev),
        ensures
            *final(self) == step(*old(self), ev).0,
            a == step(*old(self), ev).1,
    {
        match ev {
            LoopEvent::Trigger => {
                if matches!(self.phase, Phase::Idle) {
                    self.phase = Phase::Running;
                    Action::StartRun
                } else {
                    self.trigger_pending = true;
                    Action::Defer
                }
            },
            LoopEvent::Interrupt => {
                if matches!(self.phase, Phase::Idle) {
                    self.phase = Phase::ShuttingDown;
                    Action::Shutdown
                } else {
                    self.interrupt_pending = true;
                    Action::Defer
                }
            },
            LoopEvent::RunFinished => {
                if self.interrupt_pending {
                    self.phase = Phase::ShuttingDown;
                    Action::Shutdown
                } else if self.trigger_pending {
                    self.trigger_pending = false;
                    Action::StartRun
                } else {
                    self.phase = Phase::Idle;
                    Action::Wait
                }
            },
        }
    }

    /// Wind the loop down after shutdown began.
    pub fn complete_shutdown(&mut self)
        requires
            old(self).phase == Phase::ShuttingDown,
        ensures
            *final(self) == (Orchestrator { phase: Phase::Terminated, ..*old(self) }),
    {
        self.phase = Phase::Terminated;
    }
}

/// The startup run comes first: in the initial state no loop event is
/// enabled, so the command runs once before any trigger is observed.
pub proof fn lemma_startup_run_first(ev: LoopEvent)
    ensures
        !event_enabled(initial_orchestrator(), ev),
{
}

/// Runs are serialized: a trigger arriving while a run is in flight starts
/// no second run and leaves the run in flight; when the run then finishes
/// with no interrupt remembered, the remembered trigger starts the next
/// run.
pub proof fn lemma_trigger_while_running_serialized(s: Orchestrator)
    requires
        s.phase == Phase::Running,
    ensures
        ({
            let (s1, a1) = step(s, LoopEvent::Trigger);
            &&& a1 == Action::Defer
            &&& s1.phase == Phase::Running
            &&& !s.interrupt_pending ==> step(s1, LoopEvent::RunFinished).1 == Action::StartRun
        }),
{
}

/// An interrupt never aborts a run in flight: the run continues, and the
/// loop shuts down exactly when the run finishes.
pub proof fn lemma_interrupt_waits_for_run(s: Orchestrator)
    requires
        s.phase == Phase::Running,
    ensures
        ({
            let (s1, a1) = step(s, LoopEvent::Interrupt);
            &&& a1 == Action::Defer
            &&& s1.phase == Phase::Running
            &&& step(s1, LoopEvent::RunFinished).1 == Action::Shutdown
            &&& step(s1, LoopEvent::RunFinished).0.phase == Phase::ShuttingDown
        }),
{
}

/// A configuration error found at startup, before the loop ever runs.
#[derive(Clone, Copy, PartialEq, Eq, Structural, Debug)]
pub enum StartupError {
    /// The initial scan collected no files.
    NothingToWatch,
}

/// Check the initial scan's result: watching an empty set is a fatal
/// configuration error, reported before the loop ever starts.
pub fn validate_watch_set(file_count: usize) -> (r: Result<(), StartupError>)
    ensures
        (r is Ok) == (file_count > 0),
        file_count == 0 ==> r == Result::<(), StartupError>::Err(StartupError::NothingToWatch),
{
    if file_count == 0 {
        Err(StartupError::NothingToWatch)
    } else {
        Ok(())
    }
}

} // verus!
