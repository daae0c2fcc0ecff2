//! Test verdicts, test results and the test-case interface.

use std::path::PathBuf;
use std::time::Duration;
use vstd::prelude::*;

verus! {

/// `std::path::PathBuf`, carried through as an opaque value.
#[verifier::external_type_specification]
#[verifier::external_body]
pub struct ExPathBuf(PathBuf);

/// `Duration::clone`, used by the derived `Clone` of `TestResult`: `Duration` is
/// `Copy`, so the clone is the value itself.
pub assume_specification[ <Duration as Clone>::clone ](d: &Duration) -> (r: Duration)
    ensures
        r == *d,
;

/// Verdict of one test case.
#[derive(Debug, Clone, PartialEq, Eq)]
pub enum TestVerdict {
    Passed,
    Failed(String),
    Skipped(String),
    Error(String),
    Timeout,
    /// The broker violated the specification as this test case expects; recorded
    /// as evidence and not counted as a suite failure.
    ExpectedFail(String),
    /// Record-type verdict for MAY-level behaviour: the observed behaviour is
    /// reported without asserting an outcome. Never counts as a failure.
    Info(String),
}

/// `true` exactly for the `Passed` verdict.
pub open spec fn verdict_is_passed(v: TestVerdict) -> bool {
    v is Passed
}

/// The verdicts that count as "no failure" for scheduling purposes.
pub open spec fn verdict_counts_as_success(v: TestVerdict) -> bool {
    v is Passed || v is ExpectedFail || v is Info
}

impl TestVerdict {
    pub fn is_passed(&self) -> (r: bool)
        ensures
            r == verdict_is_passed(*self),
    {
        match self {
            TestVerdict::Passed => true,
            _ => false,
        }
    }

    /// Verdicts that count as "no failure" for scheduling purposes: retrying
    /// is stopped and the suite is not halted.
    pub fn counts_as_success(&self) -> (r: bool)
        ensures
            r == verdict_counts_as_success(*self),
    {
        match self {
            TestVerdict::Passed => true,
            TestVerdict::ExpectedFail(_) => true,
            TestVerdict::Info(_) => true,
            _ => false,
        }
    }
}

/// A passed verdict always counts as a success.
pub proof fn lemma_passed_counts_as_success(v: TestVerdict)
    ensures
        verdict_is_passed(v) ==> verdict_counts_as_success(v),
{
}

/// Failures, skips, errors and timeouts never count as a success; expected
/// failures and record-type observations always do.
pub proof fn lemma_success_classification(v: TestVerdict)
    ensures
        (v is Failed || v is Skipped || v is Error || v is Timeout) ==> !verdict_counts_as_success(v),
        (v is ExpectedFail || v is Info) ==> verdict_counts_as_success(v) && !verdict_is_passed(v),
{
}

/// Declared expectation of a test case, applied after execution to map the raw
/// outcome onto the reported verdict.
#[derive(Debug, Clone, Copy, PartialEq, Eq)]
pub enum Expectation {
    /// Ordinary assertive test (default).
    Normal,
    /// The broker is known to violate the specification here.
    ExpectedFail,
    /// Record-type test for MAY-level behaviour.
    Info,
}

impl Default for Expectation {
    fn default() -> (r: Self)
        ensures
            r == Expectation::Normal,
    {
        Expectation::Normal
    }
}

/// Test result with timing and metadata.
#[derive(Debug, Clone)]
pub struct TestResult {
    pub name: String,
    pub suite: String,
    pub verdict: TestVerdict,
    pub duration: Duration,
    pub retries: u32,
    /// Optional annotation surfaced in reports.
    pub note: Option<String>,
}

/// The fields every constructor of `TestResult` fills the same way: name, suite
/// and duration as given, no retries.
pub open spec fn fresh_result(r: TestResult, name: &str, suite: &str, duration: Duration) -> bool {
    &&& r.name@ == name@
    &&& r.suite@ == suite@
    &&& r.duration == duration
    &&& r.retries == 0
}

impl TestResult {
    pub fn passed(name: &str, suite: &str, duration: Duration) -> (r: Self)
        ensures
            fresh_result(r, name, suite, duration),
            r.verdict is Passed,
            r.note is None,
    {
        TestResult {
            name: name.to_owned(),
            suite: suite.to_owned(),
            verdict: TestVerdict::Passed,
            duration,
            retries: 0,
            note: None,
        }
    }

    /// Passed with an explanatory note, so that the reason is visible in reports.
    pub fn passed_with_note(name: &str, suite: &str, duration: Duration, note: &str) -> (r: Self)
        ensures
            fresh_result(r, name, suite, duration),
            r.verdict is Passed,
            r.note matches Some(n) && n@ == note@,
    {
        TestResult {
            name: name.to_owned(),
            suite: suite.to_owned(),
            verdict: TestVerdict::Passed,
            duration,
            retries: 0,
            note: Some(note.to_owned()),
        }
    }

    pub fn failed(name: &str, suite: &str, duration: Duration, reason: String) -> (r: Self)
        ensures
            fresh_result(r, name, suite, duration),
            r.verdict == TestVerdict::Failed(reason),
            r.note is None,
    {
        TestResult {
            name: name.to_owned(),
            suite: suite.to_owned(),
            verdict: TestVerdict::Failed(reason),
            duration,
            retries: 0,
            note: None,
        }
    }

    pub fn timeout(name: &str, suite: &str, duration: Duration) -> (r: Self)
        ensures
            fresh_result(r, name, suite, duration),
            r.verdict is Timeout,
            r.note is None,
    {
        TestResult {
            name: name.to_owned(),
            suite: suite.to_owned(),
            verdict: TestVerdict::Timeout,
            duration,
            retries: 0,
            note: None,
        }
    }

    pub fn skipped(name: &str, suite: &str, duration: Duration, reason: &str) -> (r: Self)
        ensures
            fresh_result(r, name, suite, duration),
            r.verdict matches TestVerdict::Skipped(s) && s@ == reason@,
            r.note is None,
    {
        TestResult {
            name: name.to_owned(),
            suite: suite.to_owned(),
            verdict: TestVerdict::Skipped(reason.to_owned()),
            duration,
            retries: 0,
            note: None,
        }
    }

    pub fn error(name: &str, suite: &str, duration: Duration, msg: String) -> (r: Self)
        ensures
            fresh_result(r, name, suite, duration),
            r.verdict == TestVerdict::Error(msg),
            r.note is None,
    {
        TestResult {
            name: name.to_owned(),
            suite: suite.to_owned(),
            verdict: TestVerdict::Error(msg),
            duration,
            retries: 0,
            note: None,
        }
    }
}

/// What `Duration::from_secs` returns for a number of seconds.
pub uninterp spec fn duration_of_secs(secs: u64) -> Duration;

/// `Duration::from_secs`: the duration of `secs` whole seconds; it depends on
/// `secs` alone.
#[verifier::external_body]
fn duration_from_secs(secs: u64) -> (d: Duration)
    ensures
        d == duration_of_secs(secs),
{
    Duration::from_secs(secs)
}

/// A test case of the suite. `Context` is the execution context that the
/// runner hands to each case.
pub trait TestCase: Send + Sync {
    type Context;

    /// Test case name.
    fn name(&self) -> &str;

    /// Execute the test case.
    fn execute(&self, ctx: &mut Self::Context) -> TestResult;

    /// Broker config file required by this test case, or `None` to use the
    /// harness default config. Test cases that declare the same non-default
    /// config are grouped into a sub-suite of their own.
    fn broker_config(&self) -> (r: Option<PathBuf>)
        default_ensures
            r is None,
    {
        None
    }

    /// Test timeout (default: 60 seconds).
    fn timeout(&self) -> (r: Duration)
        default_ensures
            r == duration_of_secs(60),
    {
        duration_from_secs(60)
    }

    /// Maximum retries (default: 0).
    fn max_retries(&self) -> (r: u32)
        default_ensures
            r == 0,
    {
        0
    }

    /// Names of tests that must complete first (default: none).
    fn depends_on(&self) -> (r: Vec<String>)
        default_ensures
            r@.len() == 0,
    {
        Vec::new()
    }

    /// Declared expectation of this test case (default: normal assertion).
    fn expectation(&self) -> (r: Expectation)
        default_ensures
            r == Expectation::Normal,
    {
        Expectation::Normal
    }
}

} // verus!
