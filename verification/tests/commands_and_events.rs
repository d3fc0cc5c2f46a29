use ya_runtime_dbg::command::{command_words, prepare_run, run_process_from_words, runtime_dir, RunError};
use ya_runtime_dbg::events::{
    after_run, is_broken_pipe, join_chunks, names_error_32, on_process_status, prompt_action,
    render_output, render_text, should_report_shutdown_error, AfterRun, ProcessStatus,
    PromptAction,
};
use ya_runtime_dbg::exec_mode::ExecMode;
use ya_runtime_dbg::project::{choose_project_dir, history_path};
use ya_runtime_dbg::style::{error_line, info_line, prompt_text};

fn strings(v: &[&str]) -> Vec<String> {
    v.iter().map(|s| s.to_string()).collect()
}

#[test]
fn shell_mode_runs_through_the_shell() {
    let p = prepare_run("ls -la".to_string(), &ExecMode::Shell("bash".to_string()))
        .unwrap()
        .unwrap();
    assert_eq!(p.bin, "/bin/bash");
    assert_eq!(p.args, strings(&["bash", "-c", "ls -la"]));
}

#[test]
fn exec_mode_splits_words() {
    let p = prepare_run("/bin/echo 'hello world' a\\ b".to_string(), &ExecMode::Exec)
        .unwrap()
        .unwrap();
    assert_eq!(p.bin, "/bin/echo");
    assert_eq!(p.args, strings(&["echo", "hello world", "a b"]));
}

#[test]
fn exec_mode_single_word() {
    let p = prepare_run("ls".to_string(), &ExecMode::Exec).unwrap().unwrap();
    assert_eq!(p.bin, "ls");
    assert_eq!(p.args, strings(&["ls"]));
}

#[test]
fn exec_mode_blank_line_runs_nothing() {
    assert!(prepare_run(" \t ".to_string(), &ExecMode::Exec).unwrap().is_none());
    assert!(prepare_run("# only a comment".to_string(), &ExecMode::Exec).unwrap().is_none());
}

#[test]
fn exec_mode_unclosed_quote_is_an_error() {
    match prepare_run("echo 'oops".to_string(), &ExecMode::Exec) {
        Err(RunError::Parse(e)) => assert_eq!(e.to_string(), "missing closing quote"),
        _ => panic!("expected a parse error"),
    }
}

#[test]
fn command_without_file_name_is_invalid() {
    match prepare_run(".. x".to_string(), &ExecMode::Exec) {
        Err(RunError::InvalidCommand(p)) => assert_eq!(p, ".."),
        _ => panic!("expected an invalid command"),
    }
    match run_process_from_words(strings(&["/", "a"])) {
        Err(RunError::InvalidCommand(p)) => assert_eq!(p, "/"),
        _ => panic!("expected an invalid command"),
    }
}

#[test]
fn command_words_in_both_modes() {
    assert_eq!(
        command_words("x y".to_string(), &ExecMode::Shell("sh".to_string())).unwrap(),
        strings(&["/bin/sh", "-c", "x y"])
    );
    assert_eq!(
        command_words("x  \"y z\"".to_string(), &ExecMode::Exec).unwrap(),
        strings(&["x", "y z"])
    );
}

#[test]
fn runtime_dir_is_parent() {
    assert_eq!(
        runtime_dir("/usr/lib/yagna/plugins/ya-runtime-vm/ya-runtime-vm"),
        Some("/usr/lib/yagna/plugins/ya-runtime-vm".to_string())
    );
    assert_eq!(runtime_dir("/"), None);
    assert_eq!(runtime_dir("rt"), Some("".to_string()));
}

#[test]
fn broken_pipe_detection_ignores_case() {
    assert!(is_broken_pipe("Broken pipe (os error 32)"));
    assert!(is_broken_pipe("ERROR 32 happened"));
    assert!(is_broken_pipe("İ Error 32"));
    assert!(!is_broken_pipe("os error 3"));
    assert!(!is_broken_pipe("error32"));
    assert!(names_error_32("xx error 32"));
    assert!(!names_error_32("ERROR 32"));
}

#[test]
fn after_run_decisions() {
    assert_eq!(after_run(None), AfterRun::AwaitExit);
    assert_eq!(after_run(Some("invalid command")), AfterRun::ReportError);
    assert_eq!(after_run(Some("Broken pipe (os error 32)")), AfterRun::ReportFatalError);
    assert!(should_report_shutdown_error("timeout"));
    assert!(!should_report_shutdown_error("Broken pipe (os error 32)"));
}

#[test]
fn prompt_actions() {
    assert_eq!(prompt_action(false, "ls"), PromptAction::Stop);
    assert_eq!(prompt_action(true, "  \t"), PromptAction::Skip);
    assert_eq!(prompt_action(true, ""), PromptAction::Skip);
    assert_eq!(prompt_action(true, " ls "), PromptAction::Submit);
}

#[test]
fn output_is_trimmed_onto_its_own_line() {
    assert_eq!(render_output(b"  hello\n\n"), Some("hello\n".to_string()));
    assert_eq!(render_output(b"a\nb"), Some("a\nb\n".to_string()));
    assert_eq!(render_output(b" \n\t "), None);
    assert_eq!(render_output(b""), None);
    assert_eq!(render_output(b"x\xff"), Some("x\u{fffd}\n".to_string()));
    assert_eq!(render_text("\u{3000}z\u{2029}"), Some("z\n".to_string()));
}

#[test]
fn chunks_are_joined_in_order() {
    let chunks = vec![b"ab".to_vec(), vec![], b"c".to_vec()];
    assert_eq!(join_chunks(&chunks), b"abc".to_vec());
    assert!(join_chunks(&vec![]).is_empty());
}

#[test]
fn status_of_running_process_shows_output() {
    let r = on_process_status(ProcessStatus {
        pid: 7,
        running: true,
        return_code: 0,
        stdout: b"out".to_vec(),
        stderr: vec![],
    });
    assert_eq!(r.outputs, vec![b"out".to_vec()]);
    assert!(!r.finished);
    assert_eq!(r.failure_code, None);
}

#[test]
fn status_of_failed_process_reports_code() {
    let r = on_process_status(ProcessStatus {
        pid: 7,
        running: false,
        return_code: 127,
        stdout: b"o".to_vec(),
        stderr: b"e".to_vec(),
    });
    assert_eq!(r.outputs, vec![b"o".to_vec(), b"e".to_vec()]);
    assert!(r.finished);
    assert_eq!(r.failure_code, Some(127));
}

#[test]
fn status_of_successful_exit() {
    let r = on_process_status(ProcessStatus {
        pid: 1,
        running: false,
        return_code: 0,
        stdout: vec![],
        stderr: vec![],
    });
    assert!(r.outputs.is_empty());
    assert!(r.finished);
    assert_eq!(r.failure_code, None);
}

#[test]
fn message_lines_are_tagged_in_colour() {
    assert_eq!(info_line("Deploying"), "[\x1b[1;32mINFO\x1b[0m] Deploying");
    assert_eq!(error_line("boom"), "[\x1b[1;31mERROR\x1b[0m] boom");
}

#[test]
fn prompt_shows_shell_and_arrow() {
    assert_eq!(prompt_text("bash"), "\x01\x1b[1;32m\x02bash \u{25b6} \x01\x1b[0m\x02");
}

#[test]
fn project_directory_fallback_and_history_file() {
    assert_eq!(choose_project_dir(None), "GolemFactory/ya-runtime-dbg");
    assert_eq!(choose_project_dir(Some("/home/u/.local/share/x".to_string())), "/home/u/.local/share/x");
    assert_eq!(history_path("/data/dir"), "/data/dir/.ya_dbg_history");
    assert_eq!(history_path("/data/dir/"), "/data/dir/.ya_dbg_history");
}

#[test]
fn history_file_keeps_its_name_in_any_directory() {
    for dir in &["", "/", "GolemFactory/ya-runtime-dbg", "/home/u/.local/share/ya-runtime-dbg/"] {
        let p = history_path(dir);
        assert_eq!(
            ya_runtime_dbg::paths::file_name(&p),
            Some(".ya_dbg_history".to_string())
        );
    }
}

#[test]
fn project_directory_is_never_empty() {
    assert!(!ya_runtime_dbg::project::project_dir().is_empty());
}
