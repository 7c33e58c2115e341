//! Runs declarative test cases against shell commands and scores them.

pub mod batch;
pub mod broker;
pub mod command;
pub mod discovery;
pub mod similarity;
pub mod stdio;
pub mod text;

pub use batch::{
    evaluate_case, evaluate_file, run_test_file, run_tests, score_of, score_outcomes, TestFailure,
};
pub use broker::{broker_test, parse_kind, Check, ConfigError, Test, TestDoc, TestKind, TestPlan};
pub use command::{setup_command, ExecutionResult, FailureKind, TestCommand, VerificationFailure};
pub use discovery::{select_test_files, should_ignore};
pub use similarity::{percentage_diff, score_segments, Fraction, Segment, SegmentKind, Similarity};
pub use stdio::SkeletonDelimiters;
