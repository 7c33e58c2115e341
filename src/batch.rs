//! The batch runner: every case of a file in order, each failure kept to its own case.

use vstd::prelude::*;

use crate::broker::{
    broker_test, config_error_of, kind_named, working_dir, Check, ConfigError, Test, TestDoc,
    TestKind, TestPlan,
};
use crate::command::{
    is_shell_command, output_reaches, ExecutionResult, FailureKind, TestCommand,
    VerificationFailure,
};
use crate::similarity::Fraction;
use crate::text::{is_white_space, lemma_trim_one_change};

verus! {

/// Why a case scored nothing.
pub enum TestFailure {
    /// The declaration cannot be run.
    Config(ConfigError),
    /// The command could not be started.
    Execution,
    /// A strategy refused what the command gave.
    Verification(VerificationFailure),
}

/// The cases that a file declares.
pub open spec fn doc_tests(doc: TestDoc) -> Seq<Test> {
    match doc.test {
        Some(v) => v@,
        None => Seq::empty(),
    }
}

/// The strategy that the valid case `t` declares.
pub open spec fn declared_check(t: Test) -> Check {
    choose|c: Check| c.declared_by(t, kind_named(t.test_type.unwrap()@).unwrap())
}

/// A valid case declares a strategy.
pub proof fn lemma_declared_check(t: Test)
    requires
        config_error_of(t) is None,
    ensures
        declared_check(t).declared_by(t, kind_named(t.test_type.unwrap()@).unwrap()),
{
    let k = kind_named(t.test_type.unwrap()@).unwrap();
    let c = match k {
        TestKind::ExpectError => Check::ExpectError,
        TestKind::ExitCode => Check::ExitCode(t.exit_code.unwrap()),
        TestKind::NonEmptyError => Check::NonEmptyError,
        TestKind::ExactOutput => Check::ExactOutput(t.expected.unwrap()),
        TestKind::ThresholdOutput => Check::ThresholdOutput(
            t.target_threshold.unwrap(),
            t.expected.unwrap(),
        ),
    };
    assert(c.declared_by(t, k));
}

/// The strategy that the valid case `t` declares accepts what its command gave.
pub open spec fn declared_check_passes(t: Test, o: ExecutionResult) -> bool {
    declared_check(t).passes(o)
}

/// Why the strategy that the valid case `t` declares refuses what its command gave.
pub open spec fn declared_failure_kind(t: Test, o: ExecutionResult) -> FailureKind {
    declared_check(t).failure_kind(o)
}

/// `out` is what `run` gave for the command of the valid case `t` of the file in `doc_dir`
/// (`None`: it could not start it). Of a case that cannot be run, nothing is asked.
pub open spec fn ran_as<F: Fn(&TestCommand) -> Option<ExecutionResult>>(
    run: F,
    t: Test,
    doc_dir: Seq<char>,
    windows: bool,
    out: Option<ExecutionResult>,
) -> bool {
    config_error_of(t) is None ==> exists|c: TestCommand|
        #[trigger] is_shell_command(
            c,
            t.cmd.unwrap()@,
            working_dir(doc_dir, t.test_directory.unwrap()@),
            windows,
        ) && run.ensures((&c,), out)
}

/// `s` is what the case `t` of the file in `doc_dir` scores where `run` gave `out` for its
/// command, for some `out` that `run` can give.
pub open spec fn scored_as<F: Fn(&TestCommand) -> Option<ExecutionResult>>(
    run: F,
    t: Test,
    doc_dir: Seq<char>,
    windows: bool,
    s: u64,
) -> bool {
    exists|out: Option<ExecutionResult>|
        ran_as(run, t, doc_dir, windows, out) && s == #[trigger] case_score(t, out)
}

/// `r` is the outcome of the case `t` whose command gave `out`.
pub open spec fn outcome_of(t: Test, out: Option<ExecutionResult>, r: Result<(), TestFailure>) -> bool {
    match config_error_of(t) {
        Some(e) => r == Err::<(), TestFailure>(TestFailure::Config(e)),
        None => match out {
            None => r == Err::<(), TestFailure>(TestFailure::Execution),
            Some(o) => if declared_check_passes(t, o) {
                r is Ok
            } else {
                r matches Err(TestFailure::Verification(f)) && f.kind == declared_failure_kind(t, o)
                    && f.output == o
            },
        },
    }
}

/// The points that the case `t` scores where its command gave `out`: all of them where the
/// case can be run and its strategy accepts the result, else none.
pub open spec fn case_score(t: Test, out: Option<ExecutionResult>) -> u64 {
    if config_error_of(t) is None && (out matches Some(o) && declared_check_passes(t, o)) {
        t.points.unwrap()
    } else {
        0
    }
}

/// An exact-output case whose expected text is what the command printed scores all its
/// points, where the command succeeded.
pub proof fn lemma_exact_output_scores(t: Test, o: ExecutionResult)
    requires
        config_error_of(t) is None,
        kind_named(t.test_type.unwrap()@) == Some(TestKind::ExactOutput),
        o.spec_success(),
        t.expected.unwrap()@ == o.stdout@,
    ensures
        case_score(t, Some(o)) == t.points.unwrap(),
{
    lemma_declared_check(t);
}

/// An exact-output case whose expected text is what the command printed with one character
/// changed scores nothing, unless the old and the new character are both white space.
pub proof fn lemma_exact_output_mutation_fails(t: Test, o: ExecutionResult, i: int)
    requires
        config_error_of(t) is None,
        kind_named(t.test_type.unwrap()@) == Some(TestKind::ExactOutput),
        t.expected.unwrap()@.len() == o.stdout@.len(),
        0 <= i < o.stdout@.len(),
        forall|k: int| 0 <= k < o.stdout@.len() && k != i ==> t.expected.unwrap()@[k] == o.stdout@[k],
        t.expected.unwrap()@[i] != o.stdout@[i],
        !(is_white_space(t.expected.unwrap()@[i]) && is_white_space(o.stdout@[i])),
    ensures
        case_score(t, Some(o)) == 0,
{
    lemma_declared_check(t);
    lemma_trim_one_change(o.stdout@, t.expected.unwrap()@, i);
}

/// A threshold case with threshold zero scores all its points whatever the command printed,
/// where the command succeeded.
pub proof fn lemma_zero_threshold_passes(t: Test, o: ExecutionResult)
    requires
        config_error_of(t) is None,
        kind_named(t.test_type.unwrap()@) == Some(TestKind::ThresholdOutput),
        t.target_threshold.unwrap().num == 0,
        o.spec_success(),
    ensures
        case_score(t, Some(o)) == t.points.unwrap(),
{
    lemma_declared_check(t);
}

/// `p` is what the broker makes of the case `t` of the file in `doc_dir`.
pub open spec fn planned_as(
    t: Test,
    doc_dir: Seq<char>,
    windows: bool,
    p: Result<TestPlan, ConfigError>,
) -> bool {
    &&& config_error_of(t) matches Some(e) ==> p == Err::<TestPlan, ConfigError>(e)
    &&& config_error_of(t) is None ==> (p matches Ok(q) && q.plans(t, doc_dir, windows))
}

/// A threshold of zero is reached by any output.
pub proof fn lemma_zero_threshold_reached(o: ExecutionResult, t: Fraction, expected: Seq<char>)
    requires
        t.num == 0,
    ensures
        output_reaches(o, t, expected),
{
}

/// Runs the case `test` as the broker planned it: hands its command to `run` and judges the
/// result.
fn run_planned<F: Fn(&TestCommand) -> Option<ExecutionResult>>(
    test: &Test,
    plan: &Result<TestPlan, ConfigError>,
    doc_dir: &str,
    windows: bool,
    run: &F,
) -> (r: Result<(), TestFailure>)
    requires
        forall|c: &TestCommand| run.requires((c,)),
        planned_as(*test, doc_dir@, windows, *plan),
    ensures
        exists|out: Option<ExecutionResult>|
            ran_as(*run, *test, doc_dir@, windows, out) && #[trigger] outcome_of(*test, out, r),
{
    match plan {
        Err(e) => {
            let r = Err(TestFailure::Config(*e));
            assert(ran_as(*run, *test, doc_dir@, windows, None) && outcome_of(*test, None, r));
            r
        },
        Ok(plan) => {
            let out = run(&plan.command);
            assert(is_shell_command(
                plan.command,
                test.cmd.unwrap()@,
                working_dir(doc_dir@, test.test_directory.unwrap()@),
                windows,
            ));
            assert(ran_as(*run, *test, doc_dir@, windows, out));
            let r = match &out {
                None => Err(TestFailure::Execution),
                Some(o) => match plan.verify(o) {
                    Ok(()) => Ok(()),
                    Err(f) => Err(TestFailure::Verification(f)),
                },
            };
            assert(outcome_of(*test, out, r));
            r
        },
    }
}

/// Runs the case `test` of the file in the directory `doc_dir`: checks its declaration, hands
/// its command to `run` (which gives `None` where it cannot start it), and judges the result.
pub fn evaluate_case<F: Fn(&TestCommand) -> Option<ExecutionResult>>(
    test: &Test,
    doc_dir: &str,
    windows: bool,
    run: &F,
) -> (r: Result<(), TestFailure>)
    requires
        forall|c: &TestCommand| run.requires((c,)),
    ensures
        exists|out: Option<ExecutionResult>|
            ran_as(*run, *test, doc_dir@, windows, out) && #[trigger] outcome_of(*test, out, r),
{
    let plan = broker_test(test, doc_dir, windows);
    run_planned(test, &plan, doc_dir, windows, run)
}

/// The points that a case with the outcome `outcome` scores: all of them where it passed.
pub open spec fn score_for(t: Test, outcome: Result<(), TestFailure>) -> u64 {
    if outcome is Ok && t.points is Some {
        t.points.unwrap()
    } else {
        0
    }
}

/// The points that the case `test` scores with the outcome `outcome`: all of them where it
/// passed.
pub fn score_of(test: &Test, outcome: &Result<(), TestFailure>) -> (s: u64)
    ensures
        s == score_for(*test, *outcome),
{
    match (outcome, test.points) {
        (Ok(()), Some(p)) => p,
        _ => 0,
    }
}

/// `r` is the outcome of the case `t` of the file in `doc_dir` for something that `run` gave.
pub open spec fn evaluated_as<F: Fn(&TestCommand) -> Option<ExecutionResult>>(
    run: F,
    t: Test,
    doc_dir: Seq<char>,
    windows: bool,
    r: Result<(), TestFailure>,
) -> bool {
    exists|out: Option<ExecutionResult>|
        ran_as(run, t, doc_dir, windows, out) && #[trigger] outcome_of(t, out, r)
}

/// Runs every case of `doc`, a file in the directory `doc_dir`, in order, through `run`, and
/// gives the outcome of each, index for index. Every declaration is checked before any
/// command runs.
pub fn evaluate_file<F: Fn(&TestCommand) -> Option<ExecutionResult>>(
    doc: &TestDoc,
    doc_dir: &str,
    windows: bool,
    run: &F,
) -> (r: Vec<Result<(), TestFailure>>)
    requires
        forall|c: &TestCommand| run.requires((c,)),
    ensures
        r@.len() == doc_tests(*doc).len(),
        forall|i: int|
            0 <= i < r@.len() ==> evaluated_as(*run, doc_tests(*doc)[i], doc_dir@, windows, #[trigger] r@[i]),
{
    let tests = match &doc.test {
        None => return Vec::new(),
        Some(tests) => tests,
    };
    let mut plans: Vec<Result<TestPlan, ConfigError>> = Vec::new();
    let mut i: usize = 0;
    while i < tests.len()
        invariant
            i <= tests.len(),
            plans@.len() == i,
            forall|j: int| 0 <= j < i ==> planned_as(tests@[j], doc_dir@, windows, #[trigger] plans@[j]),
        decreases tests.len() - i,
    {
        plans.push(broker_test(&tests[i], doc_dir, windows));
        i = i + 1;
    }
    let mut outcomes: Vec<Result<(), TestFailure>> = Vec::new();
    let mut i: usize = 0;
    while i < tests.len()
        invariant
            i <= tests.len(),
            doc_tests(*doc) == tests@,
            plans@.len() == tests@.len(),
            forall|j: int| 0 <= j < tests@.len() ==> planned_as(tests@[j], doc_dir@, windows, #[trigger] plans@[j]),
            forall|c: &TestCommand| run.requires((c,)),
            outcomes@.len() == i,
            forall|j: int|
                0 <= j < i ==> evaluated_as(*run, tests@[j], doc_dir@, windows, #[trigger] outcomes@[j]),
        decreases tests.len() - i,
    {
        let outcome = run_planned(&tests[i], &plans[i], doc_dir, windows, run);
        outcomes.push(outcome);
        assert(evaluated_as(*run, tests@[i as int], doc_dir@, windows, outcomes@[i as int]));
        i = i + 1;
    }
    outcomes
}

/// The points that each case of `doc` scores with the outcome at the same index.
pub fn score_outcomes(doc: &TestDoc, outcomes: &Vec<Result<(), TestFailure>>) -> (r: Vec<u64>)
    requires
        outcomes@.len() == doc_tests(*doc).len(),
    ensures
        r@.len() == outcomes@.len(),
        forall|i: int| 0 <= i < r@.len() ==> #[trigger] r@[i] == score_for(doc_tests(*doc)[i], outcomes@[i]),
{
    let mut scores: Vec<u64> = Vec::new();
    match &doc.test {
        None => {},
        Some(tests) => {
            let mut i: usize = 0;
            while i < outcomes.len()
                invariant
                    i <= outcomes.len(),
                    tests@ == doc_tests(*doc),
                    outcomes@.len() == tests@.len(),
                    scores@.len() == i,
                    forall|j: int| 0 <= j < i ==> #[trigger] scores@[j] == score_for(tests@[j], outcomes@[j]),
                decreases outcomes.len() - i,
            {
                scores.push(score_of(&tests[i], &outcomes[i]));
                i = i + 1;
            }
        },
    }
    scores
}

/// Runs every case of `doc`, a file in the directory `doc_dir`, in order, through `run`, and
/// gives the points that each scored, index for index.
pub fn run_test_file<F: Fn(&TestCommand) -> Option<ExecutionResult>>(
    doc: &TestDoc,
    doc_dir: &str,
    windows: bool,
    run: F,
) -> (r: Vec<u64>)
    requires
        forall|c: &TestCommand| run.requires((c,)),
    ensures
        r@.len() == doc_tests(*doc).len(),
        forall|i: int|
            0 <= i < r@.len() ==> scored_as(run, doc_tests(*doc)[i], doc_dir@, windows, #[trigger] r@[i]),
        forall|i: int|
            0 <= i < r@.len() ==> #[trigger] r@[i] == 0 || doc_tests(*doc)[i].points == Some(r@[i]),
{
    let outcomes = evaluate_file(doc, doc_dir, windows, &run);
    let scores = score_outcomes(doc, &outcomes);
    assert forall|i: int| 0 <= i < scores@.len() implies scored_as(
        run,
        doc_tests(*doc)[i],
        doc_dir@,
        windows,
        #[trigger] scores@[i],
    ) by {
        assert(evaluated_as(run, doc_tests(*doc)[i], doc_dir@, windows, outcomes@[i]));
        let out = choose|out: Option<ExecutionResult>|
            ran_as(run, doc_tests(*doc)[i], doc_dir@, windows, out) && #[trigger] outcome_of(
                doc_tests(*doc)[i],
                out,
                outcomes@[i],
            );
        assert(scores@[i] == case_score(doc_tests(*doc)[i], out));
    }
    scores
}

/// Runs each file of `test_files` in order through `run_test_file`, and gives the scores of
/// each, index for index.
pub fn run_tests<F: Fn(String) -> Vec<u64>>(test_files: Vec<String>, run_test_file: F) -> (r: Vec<
    Vec<u64>,
>)
    requires
        forall|f: String| run_test_file.requires((f,)),
    ensures
        r@.len() == test_files@.len(),
        forall|i: int| 0 <= i < r@.len() ==> run_test_file.ensures((test_files@[i],), #[trigger] r@[i]),
{
    let mut ret_scores: Vec<Vec<u64>> = Vec::new();
    let mut i: usize = 0;
    while i < test_files.len()
        invariant
            i <= test_files.len(),
            forall|f: String| run_test_file.requires((f,)),
            ret_scores@.len() == i,
            forall|j: int| 0 <= j < i ==> run_test_file.ensures((test_files@[j],), #[trigger] ret_scores@[j]),
        decreases test_files.len() - i,
    {
        let file = test_files[i].clone();
        let scores = run_test_file(file);
        ret_scores.push(scores);
        i = i + 1;
    }
    ret_scores
}

} // verus!
