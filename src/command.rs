//! Commands, what running them gave, and the strategies that judge it.

use vstd::prelude::*;

use crate::similarity::{
    diff_of, diff_reaches, percentage_diff, render, similarity_of, Fraction, SegmentKind, Similarity,
};
use crate::text::trim_white;

verus! {

/// What one run of a command gave: its exit code (none where a signal ended it), and what it
/// wrote to standard output and standard error, decoded as text.
pub struct ExecutionResult {
    pub code: Option<i32>,
    pub stdout: String,
    pub stderr: String,
}

impl ExecutionResult {
    /// The command ended with exit code zero.
    pub open spec fn spec_success(&self) -> bool {
        self.code == Some(0i32)
    }

    /// Whether the command ended with exit code zero.
    pub fn success(&self) -> (r: bool)
        ensures
            r == self.spec_success(),
    {
        match self.code {
            Some(c) => c == 0,
            None => false,
        }
    }

    /// A copy of this result.
    pub fn duplicate(&self) -> (r: ExecutionResult)
        ensures
            r == *self,
    {
        ExecutionResult { code: self.code, stdout: self.stdout.clone(), stderr: self.stderr.clone() }
    }
}

/// Why a verification strategy refused what a command gave.
#[derive(Clone, Copy, Debug, PartialEq, Eq)]
pub enum FailureKind {
    /// The command had to succeed and did not.
    UnexpectedFailure,
    /// The command had to fail and succeeded.
    ExpectedFailureButSucceeded,
    /// The command ended with another exit code than the one expected.
    ExitCodeMismatch,
    /// The command had to fail and write to standard error, and did not.
    ExpectedStderrButNoneOrSuccess,
    /// The output differs from the expected text.
    OutputMismatch,
    /// The output is less similar to the expected text than the threshold asks.
    BelowThreshold,
}

/// A refusal, with what is needed to tell why: the command with its directory, what it gave,
/// the exit code that was expected or the threshold that was missed, and for the output
/// strategies the similarity and the rendered diff.
pub struct VerificationFailure {
    pub kind: FailureKind,
    pub command: TestCommand,
    pub output: ExecutionResult,
    pub expected_code: Option<i32>,
    pub threshold: Option<Fraction>,
    pub similarity: Option<Similarity>,
    pub diff: Option<String>,
}

impl VerificationFailure {
    /// The failure was raised by `c` on the run `o`.
    pub open spec fn raised_by(&self, c: TestCommand, o: ExecutionResult) -> bool {
        self.command.is_copy_of(c) && self.output == o
    }

    /// The failure carries the similarity and the rendering of the diff `d`.
    pub open spec fn describes(&self, d: Seq<(SegmentKind, Seq<char>)>) -> bool {
        match (self.similarity, self.diff) {
            (Some(s), Some(t)) => similarity_of(d, s) && t@ == render(d),
            _ => false,
        }
    }
}

/// A shell command line to run in a directory.
pub struct TestCommand {
    /// The directory that the command runs in.
    pub dir: String,
    /// The program to start.
    pub program: String,
    /// Its arguments.
    pub args: Vec<String>,
}

/// The model of a list of strings.
pub open spec fn strings_view(v: Seq<String>) -> Seq<Seq<char>> {
    v.map_values(|s: String| s@)
}

/// The output of `o` reaches the threshold `t` of similarity to `expected`.
pub open spec fn output_reaches(o: ExecutionResult, t: Fraction, expected: Seq<char>) -> bool {
    diff_reaches(diff_of(o.stdout@, expected), t)
}

/// The output of `o` is `expected`, but for white space around either.
pub open spec fn output_matches(o: ExecutionResult, expected: Seq<char>) -> bool {
    trim_white(o.stdout@) == trim_white(expected)
}

/// The shell and its flag that run a command line: `cmd /C` on Windows, `sh -c` elsewhere.
pub open spec fn shell_of(windows: bool) -> (Seq<char>, Seq<char>) {
    if windows {
        (seq!['c', 'm', 'd'], seq!['/', 'C'])
    } else {
        (seq!['s', 'h'], seq!['-', 'c'])
    }
}

/// A command that runs the command line `line` through the shell in `dir`.
pub open spec fn is_shell_command(c: TestCommand, line: Seq<char>, dir: Seq<char>, windows: bool) -> bool {
    &&& c.dir@ == dir
    &&& c.program@ == shell_of(windows).0
    &&& strings_view(c.args@) == seq![shell_of(windows).1, line]
}

/// A command that runs `test_command` through the shell (`cmd /C` where `windows`, else `sh -c`)
/// in `test_directory`.
pub fn setup_command(test_command: &str, test_directory: String, windows: bool) -> (r: TestCommand)
    ensures
        is_shell_command(r, test_command@, test_directory@, windows),
{
    let (program, flag) = if windows {
        proof {
            reveal_strlit("cmd");
            reveal_strlit("/C");
        }
        let program = String::from_str("cmd");
        let flag = String::from_str("/C");
        assert(program@ =~= shell_of(windows).0);
        assert(flag@ =~= shell_of(windows).1);
        (program, flag)
    } else {
        proof {
            reveal_strlit("sh");
            reveal_strlit("-c");
        }
        let program = String::from_str("sh");
        let flag = String::from_str("-c");
        assert(program@ =~= shell_of(windows).0);
        assert(flag@ =~= shell_of(windows).1);
        (program, flag)
    };
    let mut args: Vec<String> = Vec::new();
    args.push(flag);
    args.push(String::from_str(test_command));
    let r = TestCommand { dir: test_directory, program, args };
    assert(strings_view(r.args@) =~= seq![shell_of(windows).1, test_command@]);
    r
}

impl TestCommand {
    /// Same directory, program and arguments as `c`.
    pub open spec fn is_copy_of(&self, c: TestCommand) -> bool {
        &&& self.dir == c.dir
        &&& self.program == c.program
        &&& self.args@ == c.args@
    }

    /// A copy of this command.
    pub fn duplicate(&self) -> (r: TestCommand)
        ensures
            r.is_copy_of(*self),
    {
        let args = self.args.clone();
        assert(args@ =~= self.args@);
        TestCommand { dir: self.dir.clone(), program: self.program.clone(), args }
    }

    /// Adds an argument.
    pub fn arg(&mut self, arg: &str)
        ensures
            final(self).dir == old(self).dir,
            final(self).program == old(self).program,
            strings_view(final(self).args@) == strings_view(old(self).args@).push(arg@),
    {
        self.args.push(String::from_str(arg));
        assert(strings_view(self.args@) =~= strings_view(old(self).args@).push(arg@));
    }

    /// Adds each of `args`, in order.
    pub fn args(&mut self, args: &Vec<String>)
        ensures
            final(self).dir == old(self).dir,
            final(self).program == old(self).program,
            strings_view(final(self).args@) == strings_view(old(self).args@) + strings_view(args@),
    {
        let mut i: usize = 0;
        while i < args.len()
            invariant
                i <= args.len(),
                self.dir == old(self).dir,
                self.program == old(self).program,
                strings_view(self.args@) == strings_view(old(self).args@) + strings_view(
                    args@.take(i as int),
                ),
            decreases args.len() - i,
        {
            self.arg(args[i].as_str());
            assert(strings_view(args@.take(i + 1)) =~= strings_view(args@.take(i as int)).push(
                args@[i as int]@,
            ));
            i = i + 1;
        }
        assert(args@.take(args.len() as int) =~= args@);
    }

    /// Sets the directory that the command runs in.
    pub fn current_dir(&mut self, dir: &str)
        ensures
            final(self).dir@ == dir@,
            final(self).program == old(self).program,
            final(self).args == old(self).args,
    {
        self.dir = String::from_str(dir);
    }

    fn fail(&self, kind: FailureKind, o: &ExecutionResult) -> (r: VerificationFailure)
        ensures
            r.kind == kind,
            r.raised_by(*self, *o),
            r.expected_code is None,
            r.threshold is None,
            r.similarity is None,
            r.diff is None,
    {
        VerificationFailure {
            kind,
            command: self.duplicate(),
            output: o.duplicate(),
            expected_code: None,
            threshold: None,
            similarity: None,
            diff: None,
        }
    }

    /// Passes `o` on where the command succeeded, else refuses it.
    pub fn expect_success(&self, o: ExecutionResult) -> (r: Result<ExecutionResult, VerificationFailure>)
        ensures
            o.spec_success() ==> r == Ok::<ExecutionResult, VerificationFailure>(o),
            !o.spec_success() ==> (r matches Err(f) && f.kind == FailureKind::UnexpectedFailure
                && f.raised_by(*self, o) && f.expected_code is None && f.threshold is None
                && f.similarity is None && f.diff is None),
    {
        if o.success() {
            Ok(o)
        } else {
            Err(self.fail(FailureKind::UnexpectedFailure, &o))
        }
    }

    /// The standard output of a run that had to succeed.
    pub fn stdout(&self, o: ExecutionResult) -> (r: Result<String, VerificationFailure>)
        ensures
            o.spec_success() ==> (r matches Ok(s) && s == o.stdout),
            !o.spec_success() ==> (r matches Err(f) && f.kind == FailureKind::UnexpectedFailure
                && f.raised_by(*self, o)),
    {
        match self.expect_success(o) {
            Ok(o) => Ok(o.stdout),
            Err(f) => Err(f),
        }
    }

    /// Passes a run that failed.
    pub fn assert_err(&self, o: &ExecutionResult) -> (r: Result<(), VerificationFailure>)
        ensures
            r is Ok <==> !o.spec_success(),
            r matches Err(f) ==> f.kind == FailureKind::ExpectedFailureButSucceeded && f.raised_by(
                *self,
                *o,
            ),
    {
        if o.success() {
            Err(self.fail(FailureKind::ExpectedFailureButSucceeded, o))
        } else {
            Ok(())
        }
    }

    /// Passes a run that ended with exit code `expected_code`.
    pub fn assert_exit_code(&self, o: &ExecutionResult, expected_code: i32) -> (r: Result<
        (),
        VerificationFailure,
    >)
        ensures
            r is Ok <==> o.code == Some(expected_code),
            r matches Err(f) ==> f.kind == FailureKind::ExitCodeMismatch && f.raised_by(*self, *o)
                && f.expected_code == Some(expected_code),
    {
        let matched = match o.code {
            Some(c) => c == expected_code,
            None => false,
        };
        if matched {
            Ok(())
        } else {
            let mut f = self.fail(FailureKind::ExitCodeMismatch, o);
            f.expected_code = Some(expected_code);
            Err(f)
        }
    }

    /// Passes a run that failed and wrote to standard error.
    pub fn assert_non_empty_stderr(&self, o: &ExecutionResult) -> (r: Result<(), VerificationFailure>)
        ensures
            r is Ok <==> !o.spec_success() && o.stderr@.len() > 0,
            r matches Err(f) ==> f.kind == FailureKind::ExpectedStderrButNoneOrSuccess
                && f.raised_by(*self, *o),
    {
        if o.success() || o.stderr.as_str().unicode_len() == 0 {
            Err(self.fail(FailureKind::ExpectedStderrButNoneOrSuccess, o))
        } else {
            Ok(())
        }
    }

    /// Passes a run that succeeded with an output whose similarity to `expected` reaches
    /// `target_threshold`.
    pub fn expect_output_threshold(
        &self,
        o: &ExecutionResult,
        target_threshold: Fraction,
        expected: &str,
    ) -> (r: Result<(), VerificationFailure>)
        ensures
            r is Ok <==> o.spec_success() && output_reaches(*o, target_threshold, expected@),
            r matches Err(f) ==> f.raised_by(*self, *o),
            r matches Err(f) ==> (f.kind == FailureKind::UnexpectedFailure <==> !o.spec_success()),
            r matches Err(f) ==> (f.kind == FailureKind::BelowThreshold <==> o.spec_success()),
            r matches Err(f) ==> (o.spec_success() ==> f.describes(diff_of(o.stdout@, expected@))
                && f.threshold == Some(target_threshold)),
    {
        if !o.success() {
            return Err(self.fail(FailureKind::UnexpectedFailure, o));
        }
        let (similarity, diff) = percentage_diff(o.stdout.as_str(), expected);
        if similarity.reaches(target_threshold) {
            Ok(())
        } else {
            let mut f = self.fail(FailureKind::BelowThreshold, o);
            f.threshold = Some(target_threshold);
            f.similarity = Some(similarity);
            f.diff = Some(diff);
            Err(f)
        }
    }

    /// Passes a run that succeeded with `expected` as its output, but for white space around
    /// either.
    pub fn expect_output(&self, o: &ExecutionResult, expected: &str) -> (r: Result<(), VerificationFailure>)
        ensures
            r is Ok <==> o.spec_success() && output_matches(*o, expected@),
            r matches Err(f) ==> f.raised_by(*self, *o),
            r matches Err(f) ==> (f.kind == FailureKind::UnexpectedFailure <==> !o.spec_success()),
            r matches Err(f) ==> (f.kind == FailureKind::OutputMismatch <==> o.spec_success()),
            r matches Err(f) ==> (o.spec_success() ==> f.describes(diff_of(o.stdout@, expected@))),
    {
        if !o.success() {
            return Err(self.fail(FailureKind::UnexpectedFailure, o));
        }
        let (similarity, diff) = percentage_diff(o.stdout.as_str(), expected);
        if similarity.reaches(Fraction::one()) {
            Ok(())
        } else {
            let mut f = self.fail(FailureKind::OutputMismatch, o);
            f.similarity = Some(similarity);
            f.diff = Some(diff);
            Err(f)
        }
    }
}

} // verus!
