use r2::executor::{shell_invocation, RunOutcome};
use r2::orchestrator::{
    validate_watch_set, Action, LoopEvent, Orchestrator, Phase, StartupError,
};

#[test]
fn startup_run_comes_before_any_trigger() {
    // The configured command runs once at startup, before any trigger.
    let mut orch = Orchestrator::new();
    assert_eq!(orch.phase, Phase::Idle);
    assert!(!orch.startup_done);
    let action = orch.begin_startup_run();
    assert_eq!(action, Action::StartRun);
    assert_eq!(orch.phase, Phase::Running);
    assert!(orch.startup_done);
    // The startup run completes and the loop goes to waiting.
    assert_eq!(orch.on_event(LoopEvent::RunFinished), Action::Wait);
    assert_eq!(orch.phase, Phase::Idle);
}

#[test]
fn trigger_while_idle_starts_a_run() {
    let mut orch = Orchestrator::new();
    orch.begin_startup_run();
    orch.on_event(LoopEvent::RunFinished);
    assert_eq!(orch.on_event(LoopEvent::Trigger), Action::StartRun);
    assert_eq!(orch.phase, Phase::Running);
}

#[test]
fn trigger_during_run_is_processed_after_it() {
    // No second concurrent execution: the trigger is deferred, then served.
    let mut orch = Orchestrator::new();
    orch.begin_startup_run();
    assert_eq!(orch.on_event(LoopEvent::Trigger), Action::Defer);
    assert_eq!(orch.phase, Phase::Running);
    assert_eq!(orch.on_event(LoopEvent::RunFinished), Action::StartRun);
    assert_eq!(orch.phase, Phase::Running);
    assert_eq!(orch.on_event(LoopEvent::RunFinished), Action::Wait);
    assert_eq!(orch.phase, Phase::Idle);
}

#[test]
fn interrupt_during_run_does_not_abort_it() {
    // The run in flight completes; the process exits only after that.
    let mut orch = Orchestrator::new();
    orch.begin_startup_run();
    assert_eq!(orch.on_event(LoopEvent::Interrupt), Action::Defer);
    assert_eq!(orch.phase, Phase::Running);
    assert_eq!(orch.on_event(LoopEvent::RunFinished), Action::Shutdown);
    assert_eq!(orch.phase, Phase::ShuttingDown);
    orch.complete_shutdown();
    assert_eq!(orch.phase, Phase::Terminated);
}

#[test]
fn interrupt_while_idle_shuts_down() {
    let mut orch = Orchestrator::new();
    orch.begin_startup_run();
    orch.on_event(LoopEvent::RunFinished);
    assert_eq!(orch.on_event(LoopEvent::Interrupt), Action::Shutdown);
    assert_eq!(orch.phase, Phase::ShuttingDown);
}

#[test]
fn interrupt_wins_over_queued_trigger() {
    let mut orch = Orchestrator::new();
    orch.begin_startup_run();
    assert_eq!(orch.on_event(LoopEvent::Trigger), Action::Defer);
    assert_eq!(orch.on_event(LoopEvent::Interrupt), Action::Defer);
    assert_eq!(orch.on_event(LoopEvent::RunFinished), Action::Shutdown);
    assert_eq!(orch.phase, Phase::ShuttingDown);
}

#[test]
fn empty_watch_set_is_a_fatal_startup_error() {
    assert_eq!(validate_watch_set(0), Err(StartupError::NothingToWatch));
    assert_eq!(validate_watch_set(1), Ok(()));
    assert_eq!(validate_watch_set(42), Ok(()));
}

#[test]
fn unix_commands_run_through_sh() {
    let inv = shell_invocation("echo 'Hello, r2!'", false);
    assert_eq!(inv.program, "sh");
    assert_eq!(inv.args, vec!["-c".to_string(), "echo 'Hello, r2!'".to_string()]);
}

#[test]
fn windows_commands_run_through_cmd() {
    let inv = shell_invocation("echo hi", true);
    assert_eq!(inv.program, "cmd");
    assert_eq!(inv.args, vec!["/C".to_string(), "echo hi".to_string()]);
}

#[test]
fn exit_status_classification() {
    assert_eq!(RunOutcome::from_exit(true), RunOutcome::Success);
    assert_eq!(RunOutcome::from_exit(false), RunOutcome::Failure);
    assert!(!RunOutcome::from_exit(true).needs_report());
    assert!(RunOutcome::from_exit(false).needs_report());
}
