use ya_runtime_dbg::args::{Args, CanonicalizeError, join_strings};
use ya_runtime_dbg::exec_mode::{eq_ignore_ascii_case, ExecMode, ExecModeArg};

fn args() -> Args {
    Args {
        exec_mode: ExecModeArg::Shell,
        exec_shell: "bash".to_string(),
        runtime: "rt/ya-runtime-vm".to_string(),
        workdir: "work".to_string(),
        task_package: Some("pkg.gvmi".to_string()),
        protocol: "0.1.0".to_string(),
        deploy: true,
        deploy_arg: vec!["--d1".to_string()],
        start_arg: vec!["--s1".to_string(), "--s2".to_string()],
        varargs: vec!["--cpu-cores".to_string(), "2".to_string()],
    }
}

fn strings(v: &[&str]) -> Vec<String> {
    v.iter().map(|s| s.to_string()).collect()
}

#[test]
fn mode_names_parse_in_any_case() {
    assert_eq!(ExecModeArg::parse("shell"), Ok(ExecModeArg::Shell));
    assert_eq!(ExecModeArg::parse("SHELL"), Ok(ExecModeArg::Shell));
    assert_eq!(ExecModeArg::parse("Exec"), Ok(ExecModeArg::Exec));
    assert_eq!(ExecModeArg::parse("eXeC"), Ok(ExecModeArg::Exec));
    assert_eq!(
        ExecModeArg::parse("bash"),
        Err("valid values: Shell, Exec".to_string())
    );
    assert_eq!(ExecModeArg::parse(""), Err("valid values: Shell, Exec".to_string()));
}

#[test]
fn mode_name_reads_back() {
    for m in &[ExecModeArg::Shell, ExecModeArg::Exec] {
        assert_eq!(ExecModeArg::parse(&m.name()), Ok(*m));
    }
    assert_eq!(ExecModeArg::variants(), strings(&["Shell", "Exec"]));
}

#[test]
fn ascii_case_comparison() {
    assert!(eq_ignore_ascii_case("AbC", "aBc"));
    assert!(!eq_ignore_ascii_case("abc", "abd"));
    assert!(!eq_ignore_ascii_case("ab", "abc"));
    assert!(eq_ignore_ascii_case("é", "é"));
    assert!(!eq_ignore_ascii_case("É", "é"));
}

#[test]
fn exec_mode_from_options() {
    let shell = ExecMode::new(ExecModeArg::Shell, "zsh".to_string());
    assert_eq!(shell.to_string(), "zsh");
    let exec = ExecMode::new(ExecModeArg::Exec, "zsh".to_string());
    assert_eq!(exec.to_string(), "exec");
}

#[test]
fn runtime_args_with_task_package() {
    assert_eq!(
        args().to_runtime_args(),
        strings(&["--workdir", "work", "--task-package", "pkg.gvmi", "--cpu-cores", "2"])
    );
}

#[test]
fn runtime_args_without_task_package() {
    let mut a = args();
    a.task_package = None;
    a.varargs = vec![];
    assert_eq!(a.to_runtime_args(), strings(&["--workdir", "work"]));
}

#[test]
fn deploy_and_start_args() {
    assert_eq!(
        args().deploy_args(),
        strings(&[
            "--workdir", "work", "--task-package", "pkg.gvmi", "--cpu-cores", "2", "deploy", "--d1"
        ])
    );
    assert_eq!(
        args().start_args(),
        strings(&[
            "--workdir", "work", "--task-package", "pkg.gvmi", "--cpu-cores", "2", "start",
            "--s1", "--s2"
        ])
    );
}

#[test]
fn arguments_message_lists_runtime_and_args() {
    assert_eq!(
        args().arguments_message(),
        "Arguments: rt/ya-runtime-vm --workdir work --task-package pkg.gvmi --cpu-cores 2"
    );
}

#[test]
fn join_strings_puts_separators_between() {
    assert_eq!(join_strings(&strings(&[]), ", "), "");
    assert_eq!(join_strings(&strings(&["a"]), ", "), "a");
    assert_eq!(join_strings(&strings(&["a", "b", "c"]), ", "), "a, b, c");
}

#[test]
fn canonicalize_replaces_all_paths() {
    let mut a = args();
    let r = a.canonicalize(
        Some("/abs/rt/ya-runtime-vm".to_string()),
        Some("/abs/work".to_string()),
        Some("/abs/pkg.gvmi".to_string()),
    );
    assert!(r.is_ok());
    assert_eq!(a.runtime, "/abs/rt/ya-runtime-vm");
    assert_eq!(a.workdir, "/abs/work");
    assert_eq!(a.task_package, Some("/abs/pkg.gvmi".to_string()));
    assert_eq!(a.protocol, "0.1.0");
}

#[test]
fn canonicalize_reports_missing_runtime() {
    let mut a = args();
    match a.canonicalize(None, Some("/abs/work".to_string()), None) {
        Err(CanonicalizeError::RuntimeNotFound(p)) => assert_eq!(p, "rt/ya-runtime-vm"),
        other => panic!("unexpected {:?}", other),
    }
    assert_eq!(a.runtime, "rt/ya-runtime-vm");
    assert_eq!(a.workdir, "work");
}

#[test]
fn canonicalize_reports_missing_workdir_after_runtime() {
    let mut a = args();
    match a.canonicalize(Some("/abs/rt".to_string()), None, None) {
        Err(CanonicalizeError::WorkdirNotFound(p)) => assert_eq!(p, "work"),
        other => panic!("unexpected {:?}", other),
    }
    assert_eq!(a.runtime, "/abs/rt");
    assert_eq!(a.workdir, "work");
}

#[test]
fn canonicalize_reports_missing_task_package() {
    let mut a = args();
    match a.canonicalize(Some("/abs/rt".to_string()), Some("/abs/work".to_string()), None) {
        Err(CanonicalizeError::TaskPackageNotFound(p)) => assert_eq!(p, "pkg.gvmi"),
        other => panic!("unexpected {:?}", other),
    }
    assert_eq!(a.workdir, "/abs/work");
    assert_eq!(a.task_package, Some("pkg.gvmi".to_string()));
}

#[test]
fn canonicalize_without_task_package_ignores_its_resolution() {
    let mut a = args();
    a.task_package = None;
    let r = a.canonicalize(Some("/r".to_string()), Some("/w".to_string()), None);
    assert!(r.is_ok());
    assert_eq!(a.task_package, None);
}
