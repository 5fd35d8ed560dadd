use voice_shell_app::decimal::decimal_string;
use voice_shell_app::interpreter::{
    interpreter_candidates, resolve_interpreter, venv_python_path,
};
use voice_shell_app::relay::{relay_line, LogSeverity, StreamKind};
use voice_shell_app::StartError;

#[test]
fn any_usable_probe_resolves_an_interpreter() {
    // Whatever a machine's probes report, as long as one candidate is
    // usable the resolution succeeds; so does a venv-only machine.
    for i in 0..4usize {
        let mut usable = vec![false; 4];
        usable[i] = true;
        assert!(resolve_interpreter(&usable, None, false).is_ok());
    }
    assert!(resolve_interpreter(&vec![false; 4], Some("/opt/venv"), true).is_ok());
}

#[test]
fn candidates_are_probed_in_fixed_priority_order() {
    let names = interpreter_candidates();
    assert_eq!(
        names,
        vec![
            String::from("python3"),
            String::from("python"),
            String::from("/usr/bin/python3"),
            String::from("/usr/local/bin/python3"),
        ]
    );
}

#[test]
fn first_usable_candidate_wins() {
    let r = resolve_interpreter(&vec![true, true, true, true], None, false);
    assert_eq!(r.unwrap(), "python3");
    let r = resolve_interpreter(&vec![false, false, true, true], None, false);
    assert_eq!(r.unwrap(), "/usr/bin/python3");
    let r = resolve_interpreter(&vec![false, false, false, true], Some("/opt/venv"), true);
    assert_eq!(r.unwrap(), "/usr/local/bin/python3");
}

#[test]
fn venv_is_the_fallback_when_no_candidate_probes() {
    let r = resolve_interpreter(&vec![false, false, false, false], Some("/opt/venv"), true);
    assert_eq!(r.unwrap(), "/opt/venv/bin/python");
    assert_eq!(venv_python_path("/home/u/.venv"), "/home/u/.venv/bin/python");
}

#[test]
fn nothing_usable_reports_interpreter_not_found() {
    let r = resolve_interpreter(&vec![false, false, false, false], None, false);
    assert!(matches!(r, Err(StartError::InterpreterNotFound)));
    // A virtual-environment root whose interpreter is missing on disk does
    // not resolve either.
    let r = resolve_interpreter(&vec![false, false, false, false], Some("/opt/venv"), false);
    let e = r.unwrap_err();
    assert_eq!(e.message(), "Python not found");
}

#[test]
fn relay_tags_stdout_info_and_stderr_warn() {
    let out = relay_line(StreamKind::Stdout, String::from("ready"));
    assert_eq!(out.severity, LogSeverity::Info);
    assert_eq!(out.text, "ready");
    assert_eq!(out.rendered(), "[Python] ready");

    let err = relay_line(StreamKind::Stderr, String::from("warn: low memory"));
    assert_eq!(err.severity, LogSeverity::Warn);
    assert_eq!(err.text, "warn: low memory");
    assert_eq!(err.rendered(), "[Python] warn: low memory");
}

#[test]
fn decimal_rendering_matches_standard_formatting() {
    assert_eq!(decimal_string(0), "0");
    assert_eq!(decimal_string(7), "7");
    assert_eq!(decimal_string(10), "10");
    assert_eq!(decimal_string(8766), "8766");
    assert_eq!(decimal_string(65535), "65535");
    assert_eq!(decimal_string(18446744073709551615), "18446744073709551615");
}
