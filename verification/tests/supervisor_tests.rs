use run_tool::config::{ExecConfig, TargetConfig, WatchConfig};
use run_tool::envvars::EnvVars;
use run_tool::hooks::HookOutcome;
use run_tool::supervisor::{Supervisor, SupervisorAction, SupervisorPhase};

fn target(
    has_exec: bool,
    before_hooks: &[&str],
    after_hooks: &[&str],
    watch_paths: &[&str],
) -> TargetConfig {
    TargetConfig {
        description: None,
        exec_spec: if has_exec {
            Some(ExecConfig {
                program: String::from("prog"),
                args: vec![],
                env: EnvVars::new(),
                env_file: None,
                cwd: None,
            })
        } else {
            None
        },
        run_when: vec![],
        before_hooks: before_hooks.iter().map(|h| String::from(*h)).collect(),
        after_hooks: after_hooks.iter().map(|h| String::from(*h)).collect(),
        watch: WatchConfig {
            paths: watch_paths.iter().map(|p| String::from(*p)).collect(),
        },
    }
}

#[test]
fn first_iteration_begins_without_any_event() {
    let sup = Supervisor::new(false);
    assert!(sup.restart_pending);
    assert!(!sup.cancel_requested);
    let t = target(true, &[], &[], &[]);
    assert_eq!(sup.next_action(&t), SupervisorAction::BeginIteration);
}

#[test]
fn failing_before_hook_aborts_chain_with_its_code() {
    // Target A with before-hooks [B, C]: B exits with 7, so C and A's main
    // execution never run, and the overall exit code is B's.
    let t = target(true, &["B", "C"], &[], &[]);
    let mut sup = Supervisor::new(false);
    sup.begin_iteration(&t);
    assert_eq!(sup.next_action(&t), SupervisorAction::RunBeforeHook(0));
    sup.on_hook_result(&t, &HookOutcome::Exited(7));
    assert_eq!(sup.phase, SupervisorPhase::Stopped);
    assert_eq!(sup.exit_code, Some(7));
    assert_eq!(sup.next_action(&t), SupervisorAction::Finished(7));
}

#[test]
fn hook_spawn_failure_is_a_software_error() {
    let t = target(true, &["B"], &[], &[]);
    let mut sup = Supervisor::new(false);
    sup.begin_iteration(&t);
    sup.on_hook_result(&t, &HookOutcome::SpawnFailed(String::from("no such file")));
    assert_eq!(sup.exit_code, Some(run_tool::errors::EXIT_SOFTWARE));
}

#[test]
fn hooks_run_in_order_then_exec() {
    let t = target(true, &["B", "C"], &[], &[]);
    let mut sup = Supervisor::new(false);
    sup.begin_iteration(&t);
    assert_eq!(sup.next_action(&t), SupervisorAction::RunBeforeHook(0));
    sup.on_hook_result(&t, &HookOutcome::Exited(0));
    assert_eq!(sup.next_action(&t), SupervisorAction::RunBeforeHook(1));
    sup.on_hook_result(&t, &HookOutcome::Exited(0));
    assert_eq!(sup.next_action(&t), SupervisorAction::RunExec);
}

#[test]
fn file_change_during_exec_cancels_and_restarts() {
    // Watch mode: a debounced change event arrives while the main exec is
    // still running. The run in flight is cancelled — reported as a
    // success-class "stopped by request" — and a new iteration begins
    // without further intervention.
    let t = target(true, &[], &[], &["src/"]);
    let mut sup = Supervisor::new(true);
    sup.begin_iteration(&t);
    assert_eq!(sup.next_action(&t), SupervisorAction::RunExec);

    sup.notify_file_event(true);
    assert!(sup.cancel_requested);
    assert!(sup.restart_pending);

    // The child is killed; its own code is irrelevant, the iteration ends
    // as a success and the supervisor is not stopped.
    sup.on_exec_result(&t, 137, true);
    assert_eq!(sup.phase, SupervisorPhase::Deciding);
    assert_eq!(sup.exit_code, None);

    // A fresh iteration starts at once.
    assert_eq!(sup.next_action(&t), SupervisorAction::BeginIteration);
    sup.begin_iteration(&t);
    assert_eq!(sup.next_action(&t), SupervisorAction::RunExec);
}

#[test]
fn uncancelled_run_reports_the_childs_own_code() {
    // A cancellable run with no cancellation ever requested behaves exactly
    // like a plain synchronous run: an exit-with-code-3 child reports 3.
    let natural = run_tool::runner::exit_status_code(Some(3));
    assert_eq!(run_tool::runner::resolve_cancellable_outcome(false, natural), 3);

    let t = target(true, &[], &[], &[]);
    let mut sup = Supervisor::new(false);
    sup.begin_iteration(&t);
    sup.on_exec_result(&t, 3, false);
    assert_eq!(sup.phase, SupervisorPhase::Stopped);
    assert_eq!(sup.exit_code, Some(3));
}

#[test]
fn signal_terminated_child_reports_default_code() {
    assert_eq!(run_tool::runner::exit_status_code(None), 0);
}

#[test]
fn successful_run_continues_with_after_hooks() {
    let t = target(true, &[], &["cleanup"], &[]);
    let mut sup = Supervisor::new(false);
    sup.begin_iteration(&t);
    sup.on_exec_result(&t, 0, false);
    assert_eq!(sup.next_action(&t), SupervisorAction::RunAfterHook(0));
    sup.on_hook_result(&t, &HookOutcome::Exited(0));
    assert_eq!(sup.phase, SupervisorPhase::Deciding);
    sup.poll_idle();
    assert_eq!(sup.next_action(&t), SupervisorAction::Finished(0));
}

#[test]
fn failing_after_hook_surfaces_its_code() {
    let t = target(true, &[], &["cleanup"], &[]);
    let mut sup = Supervisor::new(false);
    sup.begin_iteration(&t);
    sup.on_exec_result(&t, 0, false);
    sup.on_hook_result(&t, &HookOutcome::Exited(9));
    assert_eq!(sup.exit_code, Some(9));
}

#[test]
fn watch_mode_survives_a_failing_run() {
    let t = target(true, &[], &[], &["src/"]);
    let mut sup = Supervisor::new(true);
    sup.begin_iteration(&t);
    sup.on_exec_result(&t, 2, false);
    assert_eq!(sup.phase, SupervisorPhase::Deciding);
    assert_eq!(sup.exit_code, None);
    // No new trigger yet: the supervisor keeps waiting.
    assert_eq!(sup.next_action(&t), SupervisorAction::AwaitTrigger);
}

#[test]
fn watcher_error_event_stops_the_watch_loop() {
    let t = target(true, &[], &[], &["src/"]);
    let mut sup = Supervisor::new(true);
    sup.begin_iteration(&t);
    sup.on_exec_result(&t, 0, false);
    // An errored watcher batch cancels without scheduling a restart.
    sup.notify_file_event(false);
    assert!(!sup.restart_pending);
    sup.poll_idle();
    assert_eq!(sup.next_action(&t), SupervisorAction::Finished(0));
}

#[test]
fn target_without_exec_is_skipped_but_hooks_run() {
    let t = target(false, &["B"], &["C"], &[]);
    let mut sup = Supervisor::new(false);
    sup.begin_iteration(&t);
    assert_eq!(sup.next_action(&t), SupervisorAction::RunBeforeHook(0));
    sup.on_hook_result(&t, &HookOutcome::Exited(0));
    // No main execution: straight on to the after-hooks.
    assert_eq!(sup.next_action(&t), SupervisorAction::RunAfterHook(0));
}
