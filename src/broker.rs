//! Test cases as declared, and the broker that turns one into a command and a check.

use vstd::prelude::*;

use crate::command::{
    is_shell_command, output_matches, output_reaches, setup_command, ExecutionResult,
    FailureKind, TestCommand, VerificationFailure,
};
use crate::similarity::{diff_of, Fraction};

verus! {

/// The verification strategies.
#[derive(Clone, Copy, Debug, PartialEq, Eq)]
pub enum TestKind {
    /// The command must fail.
    ExpectError,
    /// The command must end with a given exit code.
    ExitCode,
    /// The command must fail and write to standard error.
    NonEmptyError,
    /// The command must succeed and print the expected text.
    ExactOutput,
    /// The command must succeed and print something similar enough to the expected text.
    ThresholdOutput,
}

/// The kind that a declared test type names, if any.
pub open spec fn kind_named(s: Seq<char>) -> Option<TestKind> {
    if s == "test_assert_err"@ {
        Some(TestKind::ExpectError)
    } else if s == "test_assert_exit_code"@ {
        Some(TestKind::ExitCode)
    } else if s == "test_assert_non_empty_stderr"@ {
        Some(TestKind::NonEmptyError)
    } else if s == "test_output_is_expected"@ {
        Some(TestKind::ExactOutput)
    } else if s == "test_expect_output_threshold"@ {
        Some(TestKind::ThresholdOutput)
    } else {
        None
    }
}

/// The kind that the declared test type `s` names, if any.
pub fn parse_kind(s: &String) -> (r: Option<TestKind>)
    ensures
        r == kind_named(s@),
{
    if *s == String::from_str("test_assert_err") {
        Some(TestKind::ExpectError)
    } else if *s == String::from_str("test_assert_exit_code") {
        Some(TestKind::ExitCode)
    } else if *s == String::from_str("test_assert_non_empty_stderr") {
        Some(TestKind::NonEmptyError)
    } else if *s == String::from_str("test_output_is_expected") {
        Some(TestKind::ExactOutput)
    } else if *s == String::from_str("test_expect_output_threshold") {
        Some(TestKind::ThresholdOutput)
    } else {
        None
    }
}

/// A declaration that cannot be run as it stands.
#[derive(Clone, Copy, Debug, PartialEq, Eq)]
pub enum ConfigError {
    /// No test type.
    MissingKind,
    /// A test type that names no strategy.
    UnsupportedKind,
    /// No directory to run in.
    MissingDirectory,
    /// No command.
    MissingCommand,
    /// An exit-code test without an exit code.
    MissingExitCode,
    /// A threshold test without a threshold.
    MissingThreshold,
    /// A threshold that is not a fraction between 0 and 1.
    ThresholdOutOfRange,
    /// An output test without an expected output.
    MissingExpected,
    /// No points.
    MissingPoints,
}

/// One declared test case. Each field may be missing from the declaration.
pub struct Test {
    pub description: Option<String>,
    pub test_type: Option<String>,
    pub test_directory: Option<String>,
    pub exit_code: Option<i32>,
    pub target_threshold: Option<Fraction>,
    pub cmd: Option<String>,
    pub expected: Option<String>,
    pub points: Option<u64>,
}

impl Test {
    pub fn description(&self) -> (r: Option<String>)
        ensures
            r == self.description,
    {
        self.description.clone()
    }

    pub fn test_type(&self) -> (r: Option<String>)
        ensures
            r == self.test_type,
    {
        self.test_type.clone()
    }

    pub fn test_directory(&self) -> (r: Option<String>)
        ensures
            r == self.test_directory,
    {
        self.test_directory.clone()
    }

    pub fn exit_code(&self) -> (r: Option<i32>)
        ensures
            r == self.exit_code,
    {
        self.exit_code
    }

    pub fn target_threshold(&self) -> (r: Option<Fraction>)
        ensures
            r == self.target_threshold,
    {
        self.target_threshold
    }

    pub fn cmd(&self) -> (r: Option<String>)
        ensures
            r == self.cmd,
    {
        self.cmd.clone()
    }

    pub fn expected(&self) -> (r: Option<String>)
        ensures
            r == self.expected,
    {
        self.expected.clone()
    }

    pub fn points(&self) -> (r: Option<u64>)
        ensures
            r == self.points,
    {
        self.points
    }
}

/// A file of test cases.
pub struct TestDoc {
    pub test_file_description: Option<String>,
    pub test: Option<Vec<Test>>,
}

/// What makes `t` impossible to run, if anything: checked in the order of the fields that the
/// run needs.
pub open spec fn config_error_of(t: Test) -> Option<ConfigError> {
    match t.test_type {
        None => Some(ConfigError::MissingKind),
        Some(s) => match kind_named(s@) {
            None => Some(ConfigError::UnsupportedKind),
            Some(k) => if t.test_directory is None {
                Some(ConfigError::MissingDirectory)
            } else if t.cmd is None {
                Some(ConfigError::MissingCommand)
            } else if k == TestKind::ExitCode && t.exit_code is None {
                Some(ConfigError::MissingExitCode)
            } else if k == TestKind::ThresholdOutput && t.target_threshold is None {
                Some(ConfigError::MissingThreshold)
            } else if k == TestKind::ThresholdOutput && !t.target_threshold.unwrap().wf() {
                Some(ConfigError::ThresholdOutOfRange)
            } else if (k == TestKind::ExactOutput || k == TestKind::ThresholdOutput)
                && t.expected is None {
                Some(ConfigError::MissingExpected)
            } else if t.points is None {
                Some(ConfigError::MissingPoints)
            } else {
                None
            },
        },
    }
}

/// The directory that a case runs in: its own directory, under the directory of its file.
pub open spec fn working_dir(doc_dir: Seq<char>, sub: Seq<char>) -> Seq<char> {
    doc_dir + seq!['/'] + sub
}

/// A verification strategy with what it compares against.
pub enum Check {
    ExpectError,
    ExitCode(i32),
    NonEmptyError,
    ExactOutput(String),
    ThresholdOutput(Fraction, String),
}

impl Check {
    /// The strategy accepts what the command gave.
    pub open spec fn passes(&self, o: ExecutionResult) -> bool {
        match self {
            Check::ExpectError => !o.spec_success(),
            Check::ExitCode(c) => o.code == Some(*c),
            Check::NonEmptyError => !o.spec_success() && o.stderr@.len() > 0,
            Check::ExactOutput(e) => o.spec_success() && output_matches(o, e@),
            Check::ThresholdOutput(t, e) => o.spec_success() && output_reaches(o, *t, e@),
        }
    }

    /// Why the strategy refuses what the command gave, where it does.
    pub open spec fn failure_kind(&self, o: ExecutionResult) -> FailureKind {
        match self {
            Check::ExpectError => FailureKind::ExpectedFailureButSucceeded,
            Check::ExitCode(_) => FailureKind::ExitCodeMismatch,
            Check::NonEmptyError => FailureKind::ExpectedStderrButNoneOrSuccess,
            Check::ExactOutput(_) => if o.spec_success() {
                FailureKind::OutputMismatch
            } else {
                FailureKind::UnexpectedFailure
            },
            Check::ThresholdOutput(_, _) => if o.spec_success() {
                FailureKind::BelowThreshold
            } else {
                FailureKind::UnexpectedFailure
            },
        }
    }

    /// The failure `f` of this strategy on `o` carries what the strategy compared against: the
    /// expected exit code, or the threshold, similarity and diff of a run that succeeded.
    pub open spec fn details(&self, f: VerificationFailure, o: ExecutionResult) -> bool {
        match self {
            Check::ExitCode(c) => f.expected_code == Some(*c),
            Check::ExactOutput(e) => o.spec_success() ==> f.describes(diff_of(o.stdout@, e@)),
            Check::ThresholdOutput(t, e) => o.spec_success() ==> f.threshold == Some(*t)
                && f.describes(diff_of(o.stdout@, e@)),
            _ => true,
        }
    }

    /// The strategy that the declaration `t`, of kind `k`, asks for.
    pub open spec fn declared_by(&self, t: Test, k: TestKind) -> bool {
        match k {
            TestKind::ExpectError => *self == Check::ExpectError,
            TestKind::ExitCode => *self == Check::ExitCode(t.exit_code.unwrap()),
            TestKind::NonEmptyError => *self == Check::NonEmptyError,
            TestKind::ExactOutput => self matches Check::ExactOutput(e) && e@
                == t.expected.unwrap()@,
            TestKind::ThresholdOutput => self matches Check::ThresholdOutput(f, e) && f
                == t.target_threshold.unwrap() && e@ == t.expected.unwrap()@,
        }
    }
}

/// A runnable case: the command and the strategy that judges what it gives.
pub struct TestPlan {
    pub command: TestCommand,
    pub check: Check,
}

impl TestPlan {
    /// The plan runs `t`, of the file in `doc_dir`, through the shell that `windows` picks.
    pub open spec fn plans(&self, t: Test, doc_dir: Seq<char>, windows: bool) -> bool {
        &&& t.test_type matches Some(s) && kind_named(s@) matches Some(k) && self.check.declared_by(t, k)
        &&& is_shell_command(
            self.command,
            t.cmd.unwrap()@,
            working_dir(doc_dir, t.test_directory.unwrap()@),
            windows,
        )
    }

    /// Judges what the command gave with the plan's strategy.
    pub fn verify(&self, o: &ExecutionResult) -> (r: Result<(), VerificationFailure>)
        ensures
            r is Ok <==> self.check.passes(*o),
            r matches Err(f) ==> f.kind == self.check.failure_kind(*o) && f.raised_by(
                self.command,
                *o,
            ) && self.check.details(f, *o),
    {
        match &self.check {
            Check::ExpectError => self.command.assert_err(o),
            Check::ExitCode(c) => self.command.assert_exit_code(o, *c),
            Check::NonEmptyError => self.command.assert_non_empty_stderr(o),
            Check::ExactOutput(e) => self.command.expect_output(o, e.as_str()),
            Check::ThresholdOutput(t, e) => self.command.expect_output_threshold(o, *t, e.as_str()),
        }
    }
}

/// Turns the case `test`, of the file in the directory `doc_dir`, into a command that runs
/// its command line through the shell (`cmd /C` where `windows`, else `sh -c`) in
/// `doc_dir/test_directory`, and the strategy that its kind names; or says why it cannot.
pub fn broker_test(test: &Test, doc_dir: &str, windows: bool) -> (r: Result<TestPlan, ConfigError>)
    ensures
        config_error_of(*test) matches Some(e) ==> r == Err::<TestPlan, ConfigError>(e),
        config_error_of(*test) is None ==> (r matches Ok(p) && p.plans(*test, doc_dir@, windows)),
{
    let kind = match &test.test_type {
        None => return Err(ConfigError::MissingKind),
        Some(s) => match parse_kind(s) {
            None => return Err(ConfigError::UnsupportedKind),
            Some(k) => k,
        },
    };
    let sub = match &test.test_directory {
        None => return Err(ConfigError::MissingDirectory),
        Some(d) => d,
    };
    let line = match &test.cmd {
        None => return Err(ConfigError::MissingCommand),
        Some(c) => c,
    };
    let check = match kind {
        TestKind::ExpectError => Check::ExpectError,
        TestKind::ExitCode => match test.exit_code {
            None => return Err(ConfigError::MissingExitCode),
            Some(c) => Check::ExitCode(c),
        },
        TestKind::NonEmptyError => Check::NonEmptyError,
        TestKind::ExactOutput => match &test.expected {
            None => return Err(ConfigError::MissingExpected),
            Some(e) => Check::ExactOutput(e.clone()),
        },
        TestKind::ThresholdOutput => match test.target_threshold {
            None => return Err(ConfigError::MissingThreshold),
            Some(t) => {
                if t.den == 0 || t.num > t.den {
                    return Err(ConfigError::ThresholdOutOfRange);
                }
                match &test.expected {
                    None => return Err(ConfigError::MissingExpected),
                    Some(e) => Check::ThresholdOutput(t, e.clone()),
                }
            },
        },
    };
    if test.points.is_none() {
        return Err(ConfigError::MissingPoints);
    }
    proof {
        reveal_strlit("/");
    }
    let dir = String::from_str(doc_dir).concat("/").concat(sub.as_str());
    assert(dir@ =~= working_dir(doc_dir@, sub@));
    let command = setup_command(line.as_str(), dir, windows);
    Ok(TestPlan { command, check })
}

} // verus!
