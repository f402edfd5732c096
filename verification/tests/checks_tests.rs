use run_tool::checks::{exec_check_env, CheckDecision, CheckEvaluation, ProbeOutcome};
use run_tool::config::{ExecConfig, FileOrFiles, TargetCheck, TargetCheckConfig};
use run_tool::envvars::EnvVars;
use run_tool::errors::{EXIT_DATAERR, EXIT_SOFTWARE};

fn exec_cfg(program: &str) -> ExecConfig {
    ExecConfig {
        program: String::from(program),
        args: vec![],
        env: EnvVars::new(),
        env_file: None,
        cwd: None,
    }
}

fn path_exists_check(path: &str, invert: bool) -> TargetCheckConfig {
    TargetCheckConfig {
        when: TargetCheck::PathExists { path: String::from(path) },
        invert,
    }
}

#[test]
fn no_checks_means_run() {
    let checks: Vec<TargetCheckConfig> = vec![];
    let eval = CheckEvaluation::begin(&checks);
    assert!(matches!(eval.decision, Some(CheckDecision::Run)));
}

#[test]
fn inverted_check_on_absent_path_means_run() {
    // `path_exists` with `invert: true` on a path that does not exist: the
    // target should run.
    let checks = vec![path_exists_check("/nonexistent", true)];
    let mut eval = CheckEvaluation::begin(&checks);
    eval.feed(&checks, ProbeOutcome::PathTested(false));
    assert!(matches!(eval.decision, Some(CheckDecision::Run)));
}

#[test]
fn failing_check_means_skip() {
    let checks = vec![path_exists_check("/nonexistent", false)];
    let mut eval = CheckEvaluation::begin(&checks);
    eval.feed(&checks, ProbeOutcome::PathTested(false));
    assert!(matches!(eval.decision, Some(CheckDecision::Skip)));
}

#[test]
fn spawn_failure_is_fatal_not_false() {
    // A check whose process cannot be spawned at all surfaces a fatal
    // evaluation error — not a false check result.
    let checks = vec![TargetCheckConfig { when: TargetCheck::ExecOk(exec_cfg("true")), invert: false }];
    let mut eval = CheckEvaluation::begin(&checks);
    eval.feed(
        &checks,
        ProbeOutcome::SpawnFailed(String::from("No such file or directory")),
    );
    match eval.decision {
        Some(CheckDecision::Fatal(e)) => {
            assert_eq!(e.exitcode, EXIT_SOFTWARE);
            assert_eq!(e.msg, String::from("No such file or directory"));
        }
        other => panic!("expected a fatal decision, got {:?}", other),
    }
}

#[test]
fn exec_ok_check_follows_exit_code() {
    let checks = vec![TargetCheckConfig { when: TargetCheck::ExecOk(exec_cfg("true")), invert: false }];
    let mut succeeded = CheckEvaluation::begin(&checks);
    succeeded.feed(&checks, ProbeOutcome::Exited(0));
    assert!(matches!(succeeded.decision, Some(CheckDecision::Run)));

    let mut failed = CheckEvaluation::begin(&checks);
    failed.feed(&checks, ProbeOutcome::Exited(1));
    assert!(matches!(failed.decision, Some(CheckDecision::Skip)));
}

#[test]
fn exec_err_check_holds_on_failure() {
    let checks = vec![TargetCheckConfig { when: TargetCheck::ExecErr(exec_cfg("false")), invert: false }];
    let mut eval = CheckEvaluation::begin(&checks);
    eval.feed(&checks, ProbeOutcome::Exited(2));
    assert!(matches!(eval.decision, Some(CheckDecision::Run)));
}

#[test]
fn first_false_check_short_circuits() {
    // The second check is never probed: the decision is already made.
    let checks = vec![
        path_exists_check("/nonexistent", false),
        path_exists_check("/tmp", false),
    ];
    let mut eval = CheckEvaluation::begin(&checks);
    eval.feed(&checks, ProbeOutcome::PathTested(false));
    assert!(matches!(eval.decision, Some(CheckDecision::Skip)));
    assert_eq!(eval.next_idx, 0);
}

#[test]
fn all_checks_must_hold() {
    let checks = vec![
        path_exists_check("/tmp", false),
        path_exists_check("/nonexistent", true),
    ];
    let mut eval = CheckEvaluation::begin(&checks);
    eval.feed(&checks, ProbeOutcome::PathTested(true));
    assert!(eval.decision.is_none());
    eval.feed(&checks, ProbeOutcome::PathTested(false));
    assert!(matches!(eval.decision, Some(CheckDecision::Run)));
}

#[test]
fn check_env_failure_is_a_data_error() {
    let mut cfg = exec_cfg("true");
    cfg.env_file = Some(FileOrFiles::File(String::from(
        "/nonexistent-run-tool-check.env",
    )));
    let err = exec_check_env(&cfg).unwrap_err();
    assert_eq!(err.exitcode, EXIT_DATAERR);
}

#[test]
fn check_env_without_files_is_the_literal_env() {
    let mut cfg = exec_cfg("true");
    cfg.env.set(String::from("K"), String::from("v"));
    let vars = exec_check_env(&cfg).expect("no env files: must succeed");
    assert_eq!(
        vars.get(&String::from("K")).map(|s| s.clone()),
        Some(String::from("v"))
    );
}
