use run_tool::config::{Config, ExecConfig, FileOrFiles, TargetConfig, WatchConfig};
use run_tool::envvars::EnvVars;
use run_tool::errors::AppError;
use run_tool::hooks::{hook_gate, hook_invocation_args, HookOutcome};
use run_tool::runner::exec_args_with_extra;

fn named_target(description: &str) -> TargetConfig {
    TargetConfig {
        description: Some(String::from(description)),
        exec_spec: None,
        run_when: vec![],
        before_hooks: vec![],
        after_hooks: vec![],
        watch: WatchConfig { paths: vec![] },
    }
}

#[test]
fn get_target_finds_by_name() {
    let config = Config {
        targets: vec![
            (String::from("build"), named_target("builds")),
            (String::from("test"), named_target("tests")),
        ],
    };
    let t = config.get_target(&String::from("test")).expect("present");
    assert_eq!(t.description, Some(String::from("tests")));
    assert!(config.get_target(&String::from("deploy")).is_none());
}

#[test]
fn repeated_resolution_yields_the_same_target() {
    // One configuration, one name: every resolution — for a check, a hook,
    // the main execution — sees the same target.
    let config = Config {
        targets: vec![(String::from("build"), named_target("builds"))],
    };
    let first = config.get_target(&String::from("build")).expect("present");
    let second = config.get_target(&String::from("build")).expect("present");
    assert_eq!(first.description, second.description);
    assert_eq!(first.before_hooks, second.before_hooks);
    assert_eq!(first.after_hooks, second.after_hooks);
}

#[test]
fn single_env_file_normalizes_to_one_path() {
    let one = FileOrFiles::File(String::from(".env"));
    assert_eq!(one.to_paths(), vec![String::from(".env")]);
}

#[test]
fn env_file_list_keeps_its_order() {
    let many = FileOrFiles::Files(vec![String::from("a.env"), String::from("b.env")]);
    assert_eq!(
        many.to_paths(),
        vec![String::from("a.env"), String::from("b.env")]
    );
}

#[test]
fn hooks_are_recursive_run_invocations() {
    let args = hook_invocation_args(&String::from("lint"));
    assert_eq!(args, vec![String::from("run"), String::from("lint")]);
}

#[test]
fn hook_gate_propagates_the_hooks_code() {
    assert!(hook_gate(&HookOutcome::Exited(0), String::from("m")).is_ok());

    let failed = hook_gate(&HookOutcome::Exited(5), String::from("stop")).unwrap_err();
    assert_eq!(failed.exitcode, 5);
    assert_eq!(failed.msg, String::from("stop"));

    let unspawned =
        hook_gate(&HookOutcome::SpawnFailed(String::from("gone")), String::from("m")).unwrap_err();
    assert_eq!(unspawned.exitcode, run_tool::errors::EXIT_SOFTWARE);
}

#[test]
fn extra_arguments_follow_the_targets_own() {
    let exec_cfg = ExecConfig {
        program: String::from("prog"),
        args: vec![String::from("-v")],
        env: EnvVars::new(),
        env_file: None,
        cwd: None,
    };
    let r = exec_args_with_extra(&exec_cfg, &vec![String::from("--extra"), String::from("x")]);
    assert_eq!(
        r,
        vec![String::from("-v"), String::from("--extra"), String::from("x")]
    );
}

#[test]
fn error_constructors_carry_their_codes() {
    assert_eq!(AppError::usage_error(String::from("m")).exitcode, run_tool::errors::EXIT_USAGE);
    assert_eq!(AppError::data_error(String::from("m")).exitcode, run_tool::errors::EXIT_DATAERR);
    assert_eq!(AppError::os_error(String::from("m")).exitcode, run_tool::errors::EXIT_OSERR);
    assert_eq!(AppError::skip_notice(String::from("m")).exitcode, run_tool::errors::EXIT_OK);
    assert_eq!(
        AppError::software_error(String::from("m")).exitcode,
        run_tool::errors::EXIT_SOFTWARE
    );
    assert!(run_tool::errors::exit_code_is_success(0));
    assert!(!run_tool::errors::exit_code_is_success(64));
}
