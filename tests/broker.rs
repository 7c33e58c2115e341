use test_runner::{
    broker_test, parse_kind, setup_command, Check, ConfigError, ExecutionResult, FailureKind,
    Fraction, Test, TestKind,
};

fn case(kind: &str, cmd: &str) -> Test {
    Test {
        description: None,
        test_type: Some(kind.to_string()),
        test_directory: Some("sub".to_string()),
        exit_code: None,
        target_threshold: None,
        cmd: Some(cmd.to_string()),
        expected: None,
        points: Some(3),
    }
}

fn result(code: Option<i32>, stdout: &str, stderr: &str) -> ExecutionResult {
    ExecutionResult { code, stdout: stdout.to_string(), stderr: stderr.to_string() }
}

#[test]
fn kinds_are_parsed_by_name() {
    assert_eq!(parse_kind(&"test_assert_err".to_string()), Some(TestKind::ExpectError));
    assert_eq!(parse_kind(&"test_assert_exit_code".to_string()), Some(TestKind::ExitCode));
    assert_eq!(
        parse_kind(&"test_assert_non_empty_stderr".to_string()),
        Some(TestKind::NonEmptyError)
    );
    assert_eq!(parse_kind(&"test_output_is_expected".to_string()), Some(TestKind::ExactOutput));
    assert_eq!(
        parse_kind(&"test_expect_output_threshold".to_string()),
        Some(TestKind::ThresholdOutput)
    );
    assert_eq!(parse_kind(&"test_something_else".to_string()), None);
}

#[test]
fn shell_command_per_platform() {
    let unix = setup_command("echo hi", "/tmp/x".to_string(), false);
    assert_eq!(unix.program, "sh");
    assert_eq!(unix.args, vec!["-c".to_string(), "echo hi".to_string()]);
    assert_eq!(unix.dir, "/tmp/x");
    let windows = setup_command("echo hi", "C:/x".to_string(), true);
    assert_eq!(windows.program, "cmd");
    assert_eq!(windows.args, vec!["/C".to_string(), "echo hi".to_string()]);
}

#[test]
fn command_builders() {
    let mut c = setup_command("true", "d".to_string(), false);
    c.arg("extra");
    c.args(&vec!["a".to_string(), "b".to_string()]);
    c.current_dir("elsewhere");
    assert_eq!(c.args.len(), 5);
    assert_eq!(c.args[2], "extra");
    assert_eq!(c.args[4], "b");
    assert_eq!(c.dir, "elsewhere");
}

#[test]
fn broker_resolves_directory_and_check() {
    let mut t = case("test_assert_exit_code", "exit 1");
    t.exit_code = Some(1);
    let plan = broker_test(&t, "/specs", false).ok().unwrap();
    assert_eq!(plan.command.dir, "/specs/sub");
    assert_eq!(plan.command.args[1], "exit 1");
    assert!(matches!(plan.check, Check::ExitCode(1)));
}

#[test]
fn broker_config_errors() {
    let mut t = case("test_assert_err", "false");
    t.test_type = None;
    assert!(matches!(broker_test(&t, ".", false), Err(ConfigError::MissingKind)));
    let t = case("test_nonsense", "false");
    assert!(matches!(broker_test(&t, ".", false), Err(ConfigError::UnsupportedKind)));
    let mut t = case("test_assert_err", "false");
    t.test_directory = None;
    assert!(matches!(broker_test(&t, ".", false), Err(ConfigError::MissingDirectory)));
    let mut t = case("test_assert_err", "false");
    t.cmd = None;
    assert!(matches!(broker_test(&t, ".", false), Err(ConfigError::MissingCommand)));
    let t = case("test_assert_exit_code", "false");
    assert!(matches!(broker_test(&t, ".", false), Err(ConfigError::MissingExitCode)));
    let t = case("test_output_is_expected", "echo");
    assert!(matches!(broker_test(&t, ".", false), Err(ConfigError::MissingExpected)));
    let mut t = case("test_expect_output_threshold", "echo");
    t.expected = Some("x".to_string());
    assert!(matches!(broker_test(&t, ".", false), Err(ConfigError::MissingThreshold)));
    t.target_threshold = Some(Fraction { num: 3, den: 2 });
    assert!(matches!(broker_test(&t, ".", false), Err(ConfigError::ThresholdOutOfRange)));
    t.target_threshold = Some(Fraction { num: 0, den: 0 });
    assert!(matches!(broker_test(&t, ".", false), Err(ConfigError::ThresholdOutOfRange)));
    t.target_threshold = Some(Fraction { num: 1, den: 2 });
    t.expected = None;
    assert!(matches!(broker_test(&t, ".", false), Err(ConfigError::MissingExpected)));
    let mut t = case("test_assert_err", "false");
    t.points = None;
    assert!(matches!(broker_test(&t, ".", false), Err(ConfigError::MissingPoints)));
}

#[test]
fn strategy_expect_error() {
    let plan = broker_test(&case("test_assert_err", "false"), ".", false).ok().unwrap();
    assert!(plan.verify(&result(Some(1), "", "")).is_ok());
    assert!(plan.verify(&result(None, "", "")).is_ok());
    let f = plan.verify(&result(Some(0), "out", "err")).err().unwrap();
    assert_eq!(f.kind, FailureKind::ExpectedFailureButSucceeded);
    assert_eq!(f.output.stdout, "out");
    assert_eq!(f.output.stderr, "err");
    assert_eq!(f.command.dir, "./sub");
    assert_eq!(f.command.program, "sh");
    assert_eq!(f.command.args, vec!["-c".to_string(), "false".to_string()]);
    assert_eq!(f.output.code, Some(0));
}

#[test]
fn strategy_exit_code() {
    let mut t = case("test_assert_exit_code", "exit 3");
    t.exit_code = Some(3);
    let plan = broker_test(&t, ".", false).ok().unwrap();
    assert!(plan.verify(&result(Some(3), "", "")).is_ok());
    let f = plan.verify(&result(Some(0), "", "")).err().unwrap();
    assert_eq!(f.kind, FailureKind::ExitCodeMismatch);
    assert_eq!(f.expected_code, Some(3));
    assert_eq!(f.output.code, Some(0));
    assert_eq!(f.command.args[1], "exit 3");
    let f = plan.verify(&result(None, "", "")).err().unwrap();
    assert_eq!(f.kind, FailureKind::ExitCodeMismatch);
}

#[test]
fn strategy_non_empty_stderr() {
    let plan = broker_test(&case("test_assert_non_empty_stderr", "x"), ".", false).ok().unwrap();
    assert!(plan.verify(&result(Some(2), "", "boom")).is_ok());
    let f = plan.verify(&result(Some(2), "", "")).err().unwrap();
    assert_eq!(f.kind, FailureKind::ExpectedStderrButNoneOrSuccess);
    let f = plan.verify(&result(Some(0), "", "warning")).err().unwrap();
    assert_eq!(f.kind, FailureKind::ExpectedStderrButNoneOrSuccess);
    assert_eq!(f.output.stderr, "warning");
    assert_eq!(f.command.args[1], "x");
}

#[test]
fn strategy_exact_output() {
    let mut t = case("test_output_is_expected", "echo hello");
    t.expected = Some("hello".to_string());
    let plan = broker_test(&t, ".", false).ok().unwrap();
    assert!(plan.verify(&result(Some(0), "hello\n", "")).is_ok());
    let f = plan.verify(&result(Some(0), "hellp\n", "")).err().unwrap();
    assert_eq!(f.kind, FailureKind::OutputMismatch);
    assert_eq!(f.diff, Some("=hell-o+p".to_string()));
    let f = plan.verify(&result(Some(1), "hello\n", "")).err().unwrap();
    assert_eq!(f.kind, FailureKind::UnexpectedFailure);
    assert!(f.diff.is_none());
}

#[test]
fn strategy_threshold_output() {
    let mut t = case("test_expect_output_threshold", "echo 1234");
    t.expected = Some("12345".to_string());
    t.target_threshold = Some(Fraction { num: 4, den: 5 });
    let plan = broker_test(&t, ".", false).ok().unwrap();
    assert!(plan.verify(&result(Some(0), "1234", "")).is_ok());
    assert!(plan.verify(&result(Some(0), "12345", "")).is_ok());
    let f = plan.verify(&result(Some(0), "123", "")).err().unwrap();
    assert_eq!(f.kind, FailureKind::BelowThreshold);
    let s = f.similarity.unwrap();
    assert_eq!((s.same, s.added, s.removed), (3, 0, 2));
    assert_eq!(f.threshold, Some(Fraction { num: 4, den: 5 }));
    assert_eq!(f.diff, Some("=123-45".to_string()));
    assert_eq!(f.command.args[1], "echo 1234");
    let f = plan.verify(&result(Some(1), "12345", "")).err().unwrap();
    assert_eq!(f.kind, FailureKind::UnexpectedFailure);
}

#[test]
fn test_getters() {
    let mut t = case("test_assert_exit_code", "exit 1");
    t.description = Some("d".to_string());
    t.exit_code = Some(1);
    t.expected = Some("e".to_string());
    t.target_threshold = Some(Fraction { num: 1, den: 2 });
    assert_eq!(t.description(), Some("d".to_string()));
    assert_eq!(t.test_type(), Some("test_assert_exit_code".to_string()));
    assert_eq!(t.test_directory(), Some("sub".to_string()));
    assert_eq!(t.exit_code(), Some(1));
    assert_eq!(t.target_threshold(), Some(Fraction { num: 1, den: 2 }));
    assert_eq!(t.cmd(), Some("exit 1".to_string()));
    assert_eq!(t.expected(), Some("e".to_string()));
    assert_eq!(t.points(), Some(3));
}

#[test]
fn command_success_and_stdout() {
    let c = setup_command("echo hi", ".".to_string(), false);
    assert!(c.expect_success(result(Some(0), "hi", "")).is_ok());
    assert_eq!(c.stdout(result(Some(0), "hi\n", "")).ok(), Some("hi\n".to_string()));
    let f = c.stdout(result(Some(4), "hi", "no")).err().unwrap();
    assert_eq!(f.kind, FailureKind::UnexpectedFailure);
    assert_eq!(f.output.code, Some(4));
    assert_eq!(f.output.stderr, "no");
    assert_eq!(f.command.args[1], "echo hi");
    assert_eq!(f.command.dir, ".");
}
