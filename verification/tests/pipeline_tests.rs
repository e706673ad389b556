use roxy::run;
use roxy::RunError;

#[test]
fn run_prints_computed_lines() {
    let lines = run("print 1 + 2; print \"a\" + \"b\"; print !nil;".to_string()).unwrap();
    assert_eq!(lines, vec!["3", "ab", "true"]);
}

#[test]
fn run_reports_scan_errors() {
    let err = run("print 1 + $;".to_string()).unwrap_err();
    assert!(matches!(err, RunError::Scan(_)));
    assert_eq!(err.message(), "unrecognized character '$' on line 1");
}

#[test]
fn run_reports_parse_errors() {
    let err = run("print 1 + 2".to_string()).unwrap_err();
    assert!(matches!(err, RunError::Parse(_)));
}

#[test]
fn run_reports_runtime_errors() {
    let err = run("print -\"x\";".to_string()).unwrap_err();
    assert!(matches!(err, RunError::Runtime(_)));
    assert_eq!(err.message(), "can only negate a number");
}

#[test]
fn run_refuses_variable_declarations() {
    let err = run("var age = 26;".to_string()).unwrap_err();
    assert_eq!(err, RunError::UnsupportedStatement);
    assert_eq!(err.message(), "variable declarations are not supported yet");
}

#[test]
fn run_renders_number_output_in_decimal() {
    let lines = run("print 7 / 2; print 10 * 10;".to_string()).unwrap();
    assert_eq!(lines, vec!["3.5", "100"]);
}
