use run_tool::config::{merged_env, ExecConfig, FileOrFiles};
use run_tool::envvars::EnvVars;

fn vars_of(pairs: &[(&str, &str)]) -> EnvVars {
    let mut v = EnvVars::new();
    for (k, val) in pairs {
        v.set(String::from(*k), String::from(*val));
    }
    v
}

fn get_str(vars: &EnvVars, key: &str) -> Option<String> {
    vars.get(&String::from(key)).map(|s| s.clone())
}

#[test]
fn set_then_get_returns_value() {
    let mut v = EnvVars::new();
    assert!(get_str(&v, "X").is_none());
    v.set(String::from("X"), String::from("1"));
    assert_eq!(get_str(&v, "X"), Some(String::from("1")));
}

#[test]
fn later_set_overrides_earlier() {
    let mut v = EnvVars::new();
    v.set(String::from("X"), String::from("1"));
    v.set(String::from("X"), String::from("2"));
    assert_eq!(get_str(&v, "X"), Some(String::from("2")));
}

#[test]
fn extend_over_prefers_other() {
    let mut a = vars_of(&[("X", "1"), ("Y", "only-a")]);
    let b = vars_of(&[("X", "2"), ("Z", "only-b")]);
    a.extend_over(&b);
    assert_eq!(get_str(&a, "X"), Some(String::from("2")));
    assert_eq!(get_str(&a, "Y"), Some(String::from("only-a")));
    assert_eq!(get_str(&a, "Z"), Some(String::from("only-b")));
}

#[test]
fn literal_env_wins_over_every_file() {
    // Env files [A, B]: A defines X=1, B defines X=2; the literal
    // configuration env defines X=3. The effective value is the literal one.
    let file_a = vars_of(&[("X", "1")]);
    let file_b = vars_of(&[("X", "2")]);
    let literal = vars_of(&[("X", "3")]);
    let merged = merged_env(&literal, &vec![file_a, file_b]);
    assert_eq!(get_str(&merged, "X"), Some(String::from("3")));
}

#[test]
fn later_file_wins_without_literal() {
    let file_a = vars_of(&[("X", "1"), ("A", "a")]);
    let file_b = vars_of(&[("X", "2"), ("B", "b")]);
    let literal = EnvVars::new();
    let merged = merged_env(&literal, &vec![file_a, file_b]);
    assert_eq!(get_str(&merged, "X"), Some(String::from("2")));
    assert_eq!(get_str(&merged, "A"), Some(String::from("a")));
    assert_eq!(get_str(&merged, "B"), Some(String::from("b")));
}

#[test]
fn all_vars_without_env_file_is_literal_env() {
    let exec_cfg = ExecConfig {
        program: String::from("true"),
        args: vec![],
        env: vars_of(&[("X", "3")]),
        env_file: None,
        cwd: None,
    };
    let vars = exec_cfg.all_vars().expect("no env files: must succeed");
    assert_eq!(get_str(&vars, "X"), Some(String::from("3")));
}

#[test]
fn all_vars_with_missing_env_file_fails() {
    let exec_cfg = ExecConfig {
        program: String::from("true"),
        args: vec![],
        env: EnvVars::new(),
        env_file: Some(FileOrFiles::File(String::from(
            "/nonexistent-run-tool-env-file.env",
        ))),
        cwd: None,
    };
    assert!(exec_cfg.all_vars().is_err());
}
