use exec_server::ExecRequest;
use exec_server::ExecutionOutcome;
use exec_server::WaitOutcome;
use exec_server::code_argument_flag;
use exec_server::effective_stdin;
use exec_server::format_output;
use exec_server::interpreter_program;
use exec_server::outcome_of_run;
use exec_server::run_result;
use exec_server::wants_stdin;

fn completed(exit_success: bool, stdout: &[u8], stderr: &[u8]) -> ExecutionOutcome {
    ExecutionOutcome::Completed {
        exit_success,
        stdout: stdout.to_vec(),
        stderr: stderr.to_vec(),
    }
}

#[test]
fn success_encodes_stdout() {
    // print('hi') within the deadline: status 0, body is the stdout verbatim.
    let out = format_output(&completed(true, b"hi\n", b""));
    assert_eq!(out, "0\nhi\n");
}

#[test]
fn nonzero_exit_encodes_stderr() {
    // sys.exit(1) with nothing printed: status 1, empty body.
    let out = format_output(&completed(false, b"", b""));
    assert_eq!(out, "1\n");
}

#[test]
fn failure_body_is_stderr_not_stdout() {
    let out = format_output(&completed(false, b"partial stdout", b"boom\n"));
    assert_eq!(out, "1\nboom\n");
}

#[test]
fn success_body_is_stdout_not_stderr() {
    let out = format_output(&completed(true, b"abc", b"warning\n"));
    assert_eq!(out, "0\nabc");
}

#[test]
fn timeout_is_fixed_sentinel() {
    // An elapsed deadline discards any partial output.
    let out = format_output(&ExecutionOutcome::TimedOut);
    assert_eq!(out, "1\nTimeout");
}

#[test]
fn spawn_failure_has_empty_body() {
    // A missing interpreter executable: failure, no diagnostic body.
    let out = format_output(&ExecutionOutcome::SpawnFailed);
    assert_eq!(out, "1\n");
}

#[test]
fn stdin_echo_scenario() {
    // print(sys.stdin.read()) with stdin "abc" prints "abc".
    let out = format_output(&completed(true, b"abc", b""));
    assert_eq!(out, "0\nabc");
}

#[test]
fn invalid_utf8_is_replaced_not_fatal() {
    let out = format_output(&completed(true, &[0xff, b'h', b'i'], b""));
    assert_eq!(out, "0\n\u{fffd}hi");
    let err = format_output(&completed(false, b"", &[b'e', 0xc3]));
    assert_eq!(err, "1\ne\u{fffd}");
}

#[test]
fn empty_output_on_success() {
    let out = format_output(&completed(true, b"", b""));
    assert_eq!(out, "0\n");
}

#[test]
fn run_result_tags_the_race() {
    let spawned_not = run_result(None);
    assert_eq!(spawned_not, "1\n");
    let timed_out = run_result(Some(WaitOutcome::DeadlineElapsed));
    assert_eq!(timed_out, "1\nTimeout");
    let exited = run_result(Some(WaitOutcome::Exited {
        exit_success: true,
        stdout: b"hi\n".to_vec(),
        stderr: Vec::new(),
    }));
    assert_eq!(exited, "0\nhi\n");
    let failed = run_result(Some(WaitOutcome::Exited {
        exit_success: false,
        stdout: Vec::new(),
        stderr: b"Traceback\n".to_vec(),
    }));
    assert_eq!(failed, "1\nTraceback\n");
}

#[test]
fn outcome_of_run_maps_exactly() {
    let o = outcome_of_run(Some(WaitOutcome::Exited {
        exit_success: false,
        stdout: b"a".to_vec(),
        stderr: b"b".to_vec(),
    }));
    match o {
        ExecutionOutcome::Completed {
            exit_success,
            stdout,
            stderr,
        } => {
            assert!(!exit_success);
            assert_eq!(stdout, b"a".to_vec());
            assert_eq!(stderr, b"b".to_vec());
        }
        _ => panic!("a terminated child must map to a completed outcome"),
    }
    assert!(matches!(outcome_of_run(None), ExecutionOutcome::SpawnFailed));
    assert!(matches!(
        outcome_of_run(Some(WaitOutcome::DeadlineElapsed)),
        ExecutionOutcome::TimedOut
    ));
}

#[test]
fn encoding_is_reproducible() {
    // Identical observable outcomes give byte-identical result strings.
    let a = format_output(&completed(true, b"same\n", b""));
    let b = format_output(&completed(true, b"same\n", b""));
    assert_eq!(a, b);
    let c = run_result(Some(WaitOutcome::DeadlineElapsed));
    let d = run_result(Some(WaitOutcome::DeadlineElapsed));
    assert_eq!(c, d);
}

#[test]
fn stdin_defaults_to_empty() {
    let none = effective_stdin(&None);
    assert_eq!(none, "");
    let some = effective_stdin(&Some(String::from("abc")));
    assert_eq!(some, "abc");
}

#[test]
fn request_stdin_text() {
    let req = ExecRequest {
        code: String::from("print('hi')"),
        timeout: 5,
        stdin: None,
    };
    assert_eq!(req.stdin_text(), "");
    let req = ExecRequest {
        code: String::from("import sys; print(sys.stdin.read())"),
        timeout: 5,
        stdin: Some(String::from("abc")),
    };
    assert_eq!(req.stdin_text(), "abc");
}

#[test]
fn stdin_written_only_when_nonempty() {
    assert!(!wants_stdin(""));
    assert!(wants_stdin("abc"));
    assert!(wants_stdin("\n"));
}

#[test]
fn interpreter_invocation_constants() {
    assert_eq!(interpreter_program(), "python3");
    assert_eq!(code_argument_flag(), "-c");
}
