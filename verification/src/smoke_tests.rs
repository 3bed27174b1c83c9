//! Smoke tests: test descriptions, the decisions of the test runner, and the
//! test report.
//!
//! The checks themselves talk to Docker and the file system; here a test
//! names its check (`SmokeCheck`), and the runner decides which tests run,
//! records their results, stops on critical failures and summarises.
use vstd::prelude::*;
use vstd::string::*;
use std::time::Duration;
use crate::text::{chars_of, eq_chars, lowercase, to_lowercase, push_decimal, decimal};
use crate::config::SmokeTestsConfig;

verus! {

/// When a test runs.
#[derive(Debug, Clone, Copy, PartialEq, Eq, Structural)]
pub enum TestCategory {
    /// Run before deployment starts.
    PreDeployment,
    /// Run after build completes.
    PostBuild,
    /// Run after containers start.
    PostDeployment,
    /// Optional integration tests.
    Integration,
}

/// How a failure is handled.
#[derive(Debug, Clone, Copy, PartialEq, Eq, Structural)]
pub enum Severity {
    /// Must pass: the deployment fails on error.
    Critical,
    /// Should pass: warn on failure.
    High,
    /// Nice to have.
    Medium,
    /// Purely informational.
    Low,
}

/// Outcome of one test.
#[derive(Debug, Clone)]
pub enum TestOutcome {
    Passed,
    Failed(String),
    Skipped(String),
    Timeout,
}

/// The result of running one test.
#[derive(Debug)]
pub struct TestResult {
    pub test_name: String,
    pub outcome: TestOutcome,
    pub duration: Duration,
    pub severity: Severity,
    pub remediation_steps: Option<Vec<String>>,
}

/// The check a smoke test performs.
#[derive(Debug, Clone, Copy, PartialEq, Eq, Structural)]
pub enum SmokeCheck {
    DockerRunning,
    DiskSpace,
    ComposeFile,
    ImagesBuilt,
    ContainersRunning,
    EnvironmentVariables,
    DatabaseConnectivity,
    NetworkConnectivity,
    VolumePermissions,
    ProxyRouting,
    ContainerLogs,
    DjangoMigrations,
    DjangoStaticFiles,
    DjangoAllowedHosts,
    NodeJsBuildArtifacts,
    ViteEnvVars,
    NoLocalhostUrls,
}

/// A smoke test definition.
#[derive(Debug)]
pub struct SmokeTest {
    pub name: String,
    pub description: String,
    pub category: TestCategory,
    pub severity: Severity,
    pub timeout: Duration,
    pub check: SmokeCheck,
}

/// Configuration of the smoke tests.
#[derive(Debug, Clone)]
pub struct SmokeTestConfig {
    pub enabled: bool,
    pub fail_on_error: bool,
    pub categories: Vec<TestCategory>,
    pub disabled_tests: Vec<String>,
}

/// Summary of the results of a run.
pub struct TestReport {
    pub total: usize,
    pub passed: usize,
    pub failed: usize,
    pub skipped: usize,
    pub warnings: usize,
    pub critical_failures: usize,
    pub results: Vec<TestResult>,
}

/// `Duration::from_secs`.
pub uninterp spec fn secs(n: u64) -> Duration;

/// `Duration::from_secs`; the result is named.
#[verifier::external_body]
pub(crate) fn duration_from_secs(n: u64) -> (r: Duration)
    ensures
        r == secs(n),
{
    Duration::from_secs(n)
}

// ---------------------------------------------------------------------------
// Results
// ---------------------------------------------------------------------------

/// A failed or timed-out outcome.
pub open spec fn is_failure_outcome(o: TestOutcome) -> bool {
    o is Failed || o is Timeout
}

/// The result counts as a failure.
pub open spec fn result_fails(r: TestResult) -> bool {
    is_failure_outcome(r.outcome)
}

/// The result is a failure of a critical test.
pub open spec fn result_fails_critically(r: TestResult) -> bool {
    result_fails(r) && r.severity == Severity::Critical
}

/// The result is a failure of a medium or low severity test (a warning).
pub open spec fn result_warns(r: TestResult) -> bool {
    result_fails(r) && (r.severity == Severity::Medium || r.severity == Severity::Low)
}

/// The test passed.
pub open spec fn result_passed(r: TestResult) -> bool {
    r.outcome is Passed
}

/// The test was skipped.
pub open spec fn result_skipped(r: TestResult) -> bool {
    r.outcome is Skipped
}

impl TestResult {
    /// Whether the test failed (an error or a timeout).
    pub fn is_failure(&self) -> (r: bool)
        ensures
            r == result_fails(*self),
    {
        match self.outcome {
            TestOutcome::Failed(_) | TestOutcome::Timeout => true,
            _ => false,
        }
    }

    /// Whether a critical test failed.
    pub fn is_critical_failure(&self) -> (r: bool)
        ensures
            r == result_fails_critically(*self),
    {
        self.is_failure() && self.severity == Severity::Critical
    }
}

/// Number of results in `s` that satisfy `f`.
pub open spec fn count_where(s: Seq<TestResult>, f: spec_fn(TestResult) -> bool) -> nat
    decreases s.len(),
{
    if s.len() == 0 {
        0
    } else {
        count_where(s.drop_last(), f) + if f(s.last()) { 1nat } else { 0nat }
    }
}

/// Two results that hold the same values.
pub open spec fn same_result(a: TestResult, b: TestResult) -> bool {
    &&& a.test_name@ == b.test_name@
    &&& a.duration == b.duration
    &&& a.severity == b.severity
    &&& match (a.outcome, b.outcome) {
        (TestOutcome::Passed, TestOutcome::Passed) => true,
        (TestOutcome::Failed(x), TestOutcome::Failed(y)) => x@ == y@,
        (TestOutcome::Skipped(x), TestOutcome::Skipped(y)) => x@ == y@,
        (TestOutcome::Timeout, TestOutcome::Timeout) => true,
        _ => false,
    }
    &&& match (a.remediation_steps, b.remediation_steps) {
        (None, None) => true,
        (Some(x), Some(y)) => x@.len() == y@.len() && forall|i: int| 0 <= i < x@.len() ==> x@[i]@ == y@[i]@,
        _ => false,
    }
}

fn clone_strings(v: &Vec<String>) -> (r: Vec<String>)
    ensures
        r@.len() == v@.len(),
        forall|i: int| 0 <= i < v@.len() ==> r@[i]@ == v@[i]@,
{
    let mut r: Vec<String> = Vec::new();
    let mut i: usize = 0;
    while i < v.len()
        invariant
            i <= v@.len(),
            r@.len() == i,
            forall|j: int| 0 <= j < i ==> r@[j]@ == v@[j]@,
        decreases v@.len() - i,
    {
        r.push(v[i].clone());
        i = i + 1;
    }
    r
}

/// A copy of a result.
pub fn copy_result(r: &TestResult) -> (c: TestResult)
    ensures
        same_result(c, *r),
{
    let outcome = match &r.outcome {
        TestOutcome::Passed => TestOutcome::Passed,
        TestOutcome::Failed(m) => TestOutcome::Failed(m.clone()),
        TestOutcome::Skipped(m) => TestOutcome::Skipped(m.clone()),
        TestOutcome::Timeout => TestOutcome::Timeout,
    };
    let steps = match &r.remediation_steps {
        None => None,
        Some(v) => Some(clone_strings(v)),
    };
    TestResult {
        test_name: r.test_name.clone(),
        outcome,
        duration: r.duration,
        severity: r.severity,
        remediation_steps: steps,
    }
}

proof fn lemma_same_result_preds(a: TestResult, b: TestResult)
    requires
        same_result(a, b),
    ensures
        result_passed(a) == result_passed(b),
        result_fails(a) == result_fails(b),
        result_skipped(a) == result_skipped(b),
        result_warns(a) == result_warns(b),
        result_fails_critically(a) == result_fails_critically(b),
{
}

/// The counts of a report, stated over the results it summarises.
pub open spec fn report_counts(r: TestReport, s: Seq<TestResult>) -> bool {
    &&& r.total == s.len()
    &&& r.passed == count_where(s, |x: TestResult| result_passed(x))
    &&& r.failed == count_where(s, |x: TestResult| result_fails(x))
    &&& r.skipped == count_where(s, |x: TestResult| result_skipped(x))
    &&& r.warnings == count_where(s, |x: TestResult| result_warns(x))
    &&& r.critical_failures == count_where(s, |x: TestResult| result_fails_critically(x))
}

proof fn lemma_count_step(s: Seq<TestResult>, i: int, f: spec_fn(TestResult) -> bool)
    requires
        0 <= i < s.len(),
    ensures
        count_where(s.subrange(0, i + 1), f) == count_where(s.subrange(0, i), f) + if f(s[i]) { 1nat } else { 0nat },
{
    assert(s.subrange(0, i + 1).drop_last() =~= s.subrange(0, i));
}

proof fn lemma_count_le(s: Seq<TestResult>, f: spec_fn(TestResult) -> bool)
    ensures
        count_where(s, f) <= s.len(),
    decreases s.len(),
{
    if s.len() > 0 {
        lemma_count_le(s.drop_last(), f);
    }
}

impl TestReport {
    /// Summarises `results`.
    pub fn new(results: &[TestResult]) -> (r: TestReport)
        ensures
            report_counts(r, results@),
            r.results@.len() == results@.len(),
            forall|i: int| 0 <= i < results@.len() ==> same_result(#[trigger] r.results@[i], results@[i]),
    {
        let mut passed: usize = 0;
        let mut failed: usize = 0;
        let mut skipped: usize = 0;
        let mut warnings: usize = 0;
        let mut critical_failures: usize = 0;
        let mut copied: Vec<TestResult> = Vec::new();
        let mut i: usize = 0;
        while i < results.len()
            invariant
                i <= results@.len(),
                passed == count_where(results@.subrange(0, i as int), |x: TestResult| result_passed(x)),
                failed == count_where(results@.subrange(0, i as int), |x: TestResult| result_fails(x)),
                skipped == count_where(results@.subrange(0, i as int), |x: TestResult| result_skipped(x)),
                warnings == count_where(results@.subrange(0, i as int), |x: TestResult| result_warns(x)),
                critical_failures == count_where(
                    results@.subrange(0, i as int),
                    |x: TestResult| result_fails_critically(x),
                ),
                copied@.len() == i,
                forall|j: int| 0 <= j < i ==> same_result(#[trigger] copied@[j], results@[j]),
            decreases results@.len() - i,
        {
            let r = &results[i];
            proof {
                lemma_count_step(results@, i as int, |x: TestResult| result_passed(x));
                lemma_count_step(results@, i as int, |x: TestResult| result_fails(x));
                lemma_count_step(results@, i as int, |x: TestResult| result_skipped(x));
                lemma_count_step(results@, i as int, |x: TestResult| result_warns(x));
                lemma_count_step(results@, i as int, |x: TestResult| result_fails_critically(x));
                lemma_count_le(results@.subrange(0, i as int), |x: TestResult| result_passed(x));
                lemma_count_le(results@.subrange(0, i as int), |x: TestResult| result_fails(x));
                lemma_count_le(results@.subrange(0, i as int), |x: TestResult| result_skipped(x));
                lemma_count_le(results@.subrange(0, i as int), |x: TestResult| result_warns(x));
                lemma_count_le(results@.subrange(0, i as int), |x: TestResult| result_fails_critically(x));
            }
            match r.outcome {
                TestOutcome::Passed => {
                    passed = passed + 1;
                },
                TestOutcome::Skipped(_) => {
                    skipped = skipped + 1;
                },
                _ => {},
            }
            if r.is_failure() {
                failed = failed + 1;
                if r.severity == Severity::Medium || r.severity == Severity::Low {
                    warnings = warnings + 1;
                }
                if r.severity == Severity::Critical {
                    critical_failures = critical_failures + 1;
                }
            }
            copied.push(copy_result(r));
            i = i + 1;
        }
        assert(results@.subrange(0, results@.len() as int) =~= results@);
        TestReport { total: results.len(), passed, failed, skipped, warnings, critical_failures, results: copied }
    }

    /// Whether some critical test failed.
    pub fn has_critical_failures(&self) -> (r: bool)
        ensures
            r == (self.critical_failures > 0),
    {
        self.critical_failures > 0
    }

    /// Whether no critical test failed.
    pub fn is_success(&self) -> (r: bool)
        ensures
            r == (self.critical_failures == 0),
    {
        self.critical_failures == 0
    }

    /// The printed report (see `report_text`).
    pub fn to_string(&self) -> (r: String)
        ensures
            r@ == report_text(*self),
    {
        let rule = "=====================================================\n";
        let thin = "-----------------------------------------------------\n";
        let mut t = String::from_str(rule);
        t.append("       Shipwright Smoke Test Report\n");
        t.append(rule);
        t.append("\n");
        t.append(thin);
        t.append("Summary\n");
        t.append(thin);
        t.append("Total Tests: ");
        push_decimal(&mut t, self.total as u64);
        t.append("\nPassed: ");
        push_decimal(&mut t, self.passed as u64);
        t.append("\nFailed: ");
        push_decimal(&mut t, self.failed as u64);
        t.append("\nSkipped: ");
        push_decimal(&mut t, self.skipped as u64);
        t.append("\nWarnings: ");
        push_decimal(&mut t, self.warnings as u64);
        t.append("\n\n");
        if self.is_success() {
            t.append("Status: ✅ ALL TESTS PASSED\n");
        } else {
            t.append("Status: ❌ ");
            push_decimal(&mut t, self.critical_failures as u64);
            t.append(" CRITICAL FAILURES\n");
        }
        t.append(rule);
        t
    }
}

/// The printed report: a banner, the counts, and the status line.
pub open spec fn report_text(r: TestReport) -> Seq<char> {
    "=====================================================\n"@ + "       Shipwright Smoke Test Report\n"@
        + "=====================================================\n"@ + "\n"@
        + "-----------------------------------------------------\n"@ + "Summary\n"@
        + "-----------------------------------------------------\n"@ + "Total Tests: "@ + decimal(r.total as nat)
        + "\nPassed: "@ + decimal(r.passed as nat) + "\nFailed: "@ + decimal(r.failed as nat) + "\nSkipped: "@
        + decimal(r.skipped as nat) + "\nWarnings: "@ + decimal(r.warnings as nat) + "\n\n"@ + (if r.critical_failures
        == 0 {
        "Status: ✅ ALL TESTS PASSED\n"@
    } else {
        "Status: ❌ "@ + decimal(r.critical_failures as nat) + " CRITICAL FAILURES\n"@
    }) + "=====================================================\n"@
}

proof fn lemma_partition(s: Seq<TestResult>)
    ensures
        count_where(s, |x: TestResult| result_passed(x)) + count_where(s, |x: TestResult| result_fails(x))
            + count_where(s, |x: TestResult| result_skipped(x)) == s.len(),
        count_where(s, |x: TestResult| result_fails_critically(x)) <= count_where(s, |x: TestResult| result_fails(x)),
        count_where(s, |x: TestResult| result_warns(x)) + count_where(s, |x: TestResult| result_fails_critically(x))
            <= count_where(s, |x: TestResult| result_fails(x)),
    decreases s.len(),
{
    if s.len() > 0 {
        lemma_partition(s.drop_last());
    }
}

/// Every result is counted once as passed, failed or skipped; critical
/// failures and warnings are failures of different tests; a report is a
/// success exactly when it has no critical failure.
pub proof fn lemma_report_partition(r: TestReport, s: Seq<TestResult>)
    requires
        report_counts(r, s),
    ensures
        r.passed + r.failed + r.skipped == r.total,
        r.critical_failures <= r.failed,
        r.warnings + r.critical_failures <= r.failed,
        (r.critical_failures == 0) == !(r.critical_failures > 0),
{
    lemma_partition(s);
}

// ---------------------------------------------------------------------------
// Runner decisions
// ---------------------------------------------------------------------------

/// The test may run under `config`.
pub open spec fn spec_should_run(t: SmokeTest, config: SmokeTestConfig) -> bool {
    &&& config.enabled
    &&& !(exists|i: int| 0 <= i < config.disabled_tests@.len() && config.disabled_tests@[i]@ == t.name@)
    &&& exists|i: int| 0 <= i < config.categories@.len() && config.categories@[i] == t.category
}

impl SmokeTest {
    /// Whether this test runs under `config`: tests are enabled, the test is
    /// not disabled by name, and its category is selected.
    pub fn should_run(&self, config: &SmokeTestConfig) -> (r: bool)
        ensures
            r == spec_should_run(*self, *config),
    {
        if !config.enabled {
            return false;
        }
        let name = chars_of(self.name.as_str());
        let mut i: usize = 0;
        while i < config.disabled_tests.len()
            invariant
                i <= config.disabled_tests@.len(),
                name@ == self.name@,
                forall|j: int| 0 <= j < i ==> config.disabled_tests@[j]@ != self.name@,
            decreases config.disabled_tests@.len() - i,
        {
            if eq_chars(&chars_of(config.disabled_tests[i].as_str()), &name) {
                return false;
            }
            i = i + 1;
        }
        let mut k: usize = 0;
        while k < config.categories.len()
            invariant
                k <= config.categories@.len(),
                config.enabled,
                forall|j: int| 0 <= j < config.disabled_tests@.len() ==> config.disabled_tests@[j]@ != self.name@,
                forall|j: int| 0 <= j < k ==> config.categories@[j] != self.category,
            decreases config.categories@.len() - k,
        {
            if config.categories[k] == self.category {
                assert(0 <= k < config.categories@.len() && config.categories@[k as int] == self.category);
                return true;
            }
            k = k + 1;
        }
        false
    }
}

impl SmokeTestConfig {
    /// Smoke tests on, failing the deployment on errors, for the
    /// pre-deployment, post-build and post-deployment categories.
    pub fn default() -> (r: SmokeTestConfig)
        ensures
            r.enabled,
            r.fail_on_error,
            r.categories@ == seq![TestCategory::PreDeployment, TestCategory::PostBuild, TestCategory::PostDeployment],
            r.disabled_tests@.len() == 0,
    {
        let mut categories = Vec::new();
        categories.push(TestCategory::PreDeployment);
        categories.push(TestCategory::PostBuild);
        categories.push(TestCategory::PostDeployment);
        SmokeTestConfig { enabled: true, fail_on_error: true, categories, disabled_tests: Vec::new() }
    }
}

/// The category a configured category name selects; unknown names select the
/// post-deployment tests.
pub open spec fn category_of_name(n: Seq<char>) -> TestCategory {
    if n == "pre_deployment"@ {
        TestCategory::PreDeployment
    } else if n == "post_build"@ {
        TestCategory::PostBuild
    } else if n == "post_deployment"@ {
        TestCategory::PostDeployment
    } else if n == "integration"@ {
        TestCategory::Integration
    } else {
        TestCategory::PostDeployment
    }
}

/// The category a configured category name selects.
pub fn category_from_name(n: &str) -> (r: TestCategory)
    ensures
        r == category_of_name(n@),
{
    let v = chars_of(n);
    if eq_chars(&v, &chars_of("pre_deployment")) {
        TestCategory::PreDeployment
    } else if eq_chars(&v, &chars_of("post_build")) {
        TestCategory::PostBuild
    } else if eq_chars(&v, &chars_of("post_deployment")) {
        TestCategory::PostDeployment
    } else if eq_chars(&v, &chars_of("integration")) {
        TestCategory::Integration
    } else {
        TestCategory::PostDeployment
    }
}

/// The smoke test configuration of a deployment: the project's settings
/// when it has some, otherwise the default.
pub fn smoke_config_from(settings: &Option<SmokeTestsConfig>) -> (r: SmokeTestConfig)
    ensures
        settings is None ==> r.enabled && r.fail_on_error && r.categories@ == seq![
            TestCategory::PreDeployment,
            TestCategory::PostBuild,
            TestCategory::PostDeployment,
        ] && r.disabled_tests@.len() == 0,
        settings matches Some(s) ==> {
            &&& r.enabled == s.enabled
            &&& r.fail_on_error == s.fail_on_error
            &&& r.categories@.len() == s.categories@.len()
            &&& forall|i: int| 0 <= i < s.categories@.len() ==> r.categories@[i] == category_of_name(s.categories@[i]@)
            &&& r.disabled_tests@.len() == s.disabled_tests@.len()
            &&& forall|i: int| 0 <= i < s.disabled_tests@.len() ==> r.disabled_tests@[i]@ == s.disabled_tests@[i]@
        },
{
    match settings {
        None => SmokeTestConfig::default(),
        Some(s) => {
            let mut categories: Vec<TestCategory> = Vec::new();
            let mut i: usize = 0;
            while i < s.categories.len()
                invariant
                    i <= s.categories@.len(),
                    categories@.len() == i,
                    forall|j: int| 0 <= j < i ==> categories@[j] == category_of_name(s.categories@[j]@),
                decreases s.categories@.len() - i,
            {
                categories.push(category_from_name(s.categories[i].as_str()));
                i = i + 1;
            }
            SmokeTestConfig {
                enabled: s.enabled,
                fail_on_error: s.fail_on_error,
                categories,
                disabled_tests: clone_strings(&s.disabled_tests),
            }
        },
    }
}

/// The result recorded for a test that the configuration leaves out.
pub fn skipped_result(test: &SmokeTest) -> (r: TestResult)
    ensures
        r.test_name@ == test.name@,
        r.outcome matches TestOutcome::Skipped(m) && m@ == "Disabled in config"@,
        r.duration == secs(0),
        r.severity == test.severity,
        r.remediation_steps is None,
{
    TestResult {
        test_name: test.name.clone(),
        outcome: TestOutcome::Skipped(String::from_str("Disabled in config")),
        duration: duration_from_secs(0),
        severity: test.severity,
        remediation_steps: None,
    }
}

/// How running a test's check ended.
pub enum CheckRun {
    /// The check succeeded.
    Succeeded,
    /// The check reported an error, with its message.
    Errored(String),
    /// The check did not finish within the test's timeout.
    TimedOut,
}

/// Remediation steps found in an error message (none are recognised).
pub fn extract_remediation_steps_from_message(msg: &str) -> (r: Option<Vec<String>>)
    ensures
        r is None,
{
    None
}

/// Remediation steps carried by an error (none are recognised).
pub fn extract_remediation_steps(error: &str) -> (r: Option<Vec<String>>)
    ensures
        r is None,
{
    None
}

/// The result of a test whose check ran for `duration` and ended as `run`.
pub fn result_of_run(test: &SmokeTest, run: CheckRun, duration: Duration) -> (r: TestResult)
    ensures
        r.test_name@ == test.name@,
        r.duration == duration,
        r.severity == test.severity,
        r.remediation_steps is None,
        run is Succeeded ==> r.outcome is Passed,
        run is TimedOut ==> r.outcome is Timeout,
        run matches CheckRun::Errored(m) ==> (r.outcome matches TestOutcome::Failed(x) && x@ == m@),
{
    let outcome = match run {
        CheckRun::Succeeded => TestOutcome::Passed,
        CheckRun::Errored(m) => TestOutcome::Failed(m),
        CheckRun::TimedOut => TestOutcome::Timeout,
    };
    let remediation_steps = match &outcome {
        TestOutcome::Failed(m) => extract_remediation_steps_from_message(m.as_str()),
        _ => None,
    };
    TestResult { test_name: test.name.clone(), outcome, duration, severity: test.severity, remediation_steps }
}

/// Why a category run stopped early.
#[derive(Debug)]
pub enum SmokeTestError {
    /// A critical test failed and failures are fatal; holds the test's name.
    CriticalTestFailed(String),
}

/// The results gathered by a run of smoke tests.
pub struct SmokeTestRunner {
    pub config: SmokeTestConfig,
    pub results: Vec<TestResult>,
}

impl SmokeTestRunner {
    /// A runner with no results yet.
    pub fn new(config: SmokeTestConfig) -> (r: SmokeTestRunner)
        ensures
            r.config == config,
            r.results@.len() == 0,
    {
        SmokeTestRunner { config, results: Vec::new() }
    }

    /// Records a result; a critical failure under `fail_on_error` stops the
    /// run with an error naming the test.
    pub fn record(&mut self, result: TestResult) -> (r: Result<(), SmokeTestError>)
        ensures
            final(self).config == old(self).config,
            final(self).results@ == old(self).results@.push(result),
            (r is Err) == (result_fails_critically(result) && old(self).config.fail_on_error),
            r matches Err(SmokeTestError::CriticalTestFailed(n)) ==> n@ == result.test_name@,
    {
        let stop = result.is_critical_failure() && self.config.fail_on_error;
        let name = result.test_name.clone();
        self.results.push(result);
        if stop {
            Err(SmokeTestError::CriticalTestFailed(name))
        } else {
            Ok(())
        }
    }

    /// Records the skipped result of a test the configuration leaves out.
    pub fn skip(&mut self, test: &SmokeTest)
        ensures
            final(self).config == old(self).config,
            final(self).results@.len() == old(self).results@.len() + 1,
            forall|i: int| 0 <= i < old(self).results@.len() ==> final(self).results@[i] == old(self).results@[i],
            final(self).results@.last().test_name@ == test.name@,
            final(self).results@.last().outcome matches TestOutcome::Skipped(m) && m@ == "Disabled in config"@,
            final(self).results@.last().duration == secs(0),
            final(self).results@.last().severity == test.severity,
            final(self).results@.last().remediation_steps is None,
    {
        let r = skipped_result(test);
        self.results.push(r);
    }

    /// The report of the results so far.
    pub fn generate_report(&self) -> (r: TestReport)
        ensures
            report_counts(r, self.results@),
    {
        TestReport::new(self.results.as_slice())
    }
}

// ---------------------------------------------------------------------------
// Test catalogues
// ---------------------------------------------------------------------------

fn smoke_test(name: &str, description: &str, category: TestCategory, severity: Severity, timeout_secs: u64, check: SmokeCheck) -> (t: SmokeTest)
    ensures
        t.name@ == name@,
        t.description@ == description@,
        t.category == category,
        t.severity == severity,
        t.timeout == secs(timeout_secs),
        t.check == check,
{
    SmokeTest {
        name: String::from_str(name),
        description: String::from_str(description),
        category,
        severity,
        timeout: duration_from_secs(timeout_secs),
        check,
    }
}

/// Tests that run before deployment.
pub fn get_pre_deployment_tests() -> (r: Vec<SmokeTest>)
    ensures
        r@.len() == 3,
        forall|i: int| 0 <= i < r@.len() ==> (#[trigger] r@[i]).category == TestCategory::PreDeployment,
        r@[0].check == SmokeCheck::DockerRunning && r@[0].severity == Severity::Critical,
        r@[1].check == SmokeCheck::DiskSpace && r@[1].severity == Severity::High,
        r@[2].check == SmokeCheck::ComposeFile && r@[2].severity == Severity::Critical,
{
    let mut v = Vec::new();
    v.push(smoke_test("check_docker_running", "Verify Docker daemon is running", TestCategory::PreDeployment, Severity::Critical, 10, SmokeCheck::DockerRunning));
    v.push(smoke_test("check_disk_space", "Ensure sufficient disk space available", TestCategory::PreDeployment, Severity::High, 5, SmokeCheck::DiskSpace));
    v.push(smoke_test("validate_compose_file", "Validate docker-compose file syntax", TestCategory::PreDeployment, Severity::Critical, 10, SmokeCheck::ComposeFile));
    v
}

/// Tests that run after the build.
pub fn get_post_build_tests() -> (r: Vec<SmokeTest>)
    ensures
        r@.len() == 1,
        r@[0].category == TestCategory::PostBuild,
        r@[0].check == SmokeCheck::ImagesBuilt && r@[0].severity == Severity::Critical,
{
    let mut v = Vec::new();
    v.push(smoke_test("verify_images_built", "Verify all required images were built", TestCategory::PostBuild, Severity::Critical, 10, SmokeCheck::ImagesBuilt));
    v
}

/// Tests that run after the containers start.
pub fn get_post_deployment_tests() -> (r: Vec<SmokeTest>)
    ensures
        r@.len() == 7,
        forall|i: int| 0 <= i < r@.len() ==> (#[trigger] r@[i]).category == TestCategory::PostDeployment,
        r@[0].check == SmokeCheck::ContainersRunning && r@[0].severity == Severity::Critical,
        r@[1].check == SmokeCheck::EnvironmentVariables && r@[1].severity == Severity::Critical,
        r@[2].check == SmokeCheck::DatabaseConnectivity && r@[2].severity == Severity::Critical,
        r@[3].check == SmokeCheck::NetworkConnectivity && r@[3].severity == Severity::High,
        r@[4].check == SmokeCheck::VolumePermissions && r@[4].severity == Severity::High,
        r@[5].check == SmokeCheck::ProxyRouting && r@[5].severity == Severity::Critical,
        r@[6].check == SmokeCheck::ContainerLogs && r@[6].severity == Severity::High,
{
    let mut v = Vec::new();
    v.push(smoke_test("check_containers_running", "Verify all containers are running (not restarting)", TestCategory::PostDeployment, Severity::Critical, 60, SmokeCheck::ContainersRunning));
    v.push(smoke_test("verify_environment_variables", "Check containers have required environment variables", TestCategory::PostDeployment, Severity::Critical, 30, SmokeCheck::EnvironmentVariables));
    v.push(smoke_test("test_database_connectivity", "Verify database connection and permissions", TestCategory::PostDeployment, Severity::Critical, 30, SmokeCheck::DatabaseConnectivity));
    v.push(smoke_test("test_network_connectivity", "Verify containers can reach shared resources", TestCategory::PostDeployment, Severity::High, 30, SmokeCheck::NetworkConnectivity));
    v.push(smoke_test("check_volume_permissions", "Verify volume permissions are correct", TestCategory::PostDeployment, Severity::High, 15, SmokeCheck::VolumePermissions));
    v.push(smoke_test("validate_proxy_routing", "Ensure proxy routes to correct services", TestCategory::PostDeployment, Severity::Critical, 30, SmokeCheck::ProxyRouting));
    v.push(smoke_test("check_container_logs", "Inspect logs for critical errors", TestCategory::PostDeployment, Severity::High, 15, SmokeCheck::ContainerLogs));
    v
}

/// Integration tests (none yet).
pub fn get_integration_tests() -> (r: Vec<SmokeTest>)
    ensures
        r@.len() == 0,
{
    Vec::new()
}

/// The tests of a category.
pub fn get_tests_for_category(category: TestCategory) -> (r: Vec<SmokeTest>)
    ensures
        forall|i: int| 0 <= i < r@.len() ==> (#[trigger] r@[i]).category == category,
        category == TestCategory::PreDeployment ==> r@.len() == 3,
        category == TestCategory::PostBuild ==> r@.len() == 1,
        category == TestCategory::PostDeployment ==> r@.len() == 7,
        category == TestCategory::Integration ==> r@.len() == 0,
{
    match category {
        TestCategory::PreDeployment => get_pre_deployment_tests(),
        TestCategory::PostBuild => get_post_build_tests(),
        TestCategory::PostDeployment => get_post_deployment_tests(),
        TestCategory::Integration => get_integration_tests(),
    }
}

// ---------------------------------------------------------------------------
// Framework plugins
// ---------------------------------------------------------------------------

/// Django checks.
pub struct DjangoPlugin;

/// Node.js checks.
pub struct NodeJsPlugin;

/// React/Vite checks.
pub struct ReactVitePlugin;

impl DjangoPlugin {
    /// The plugin's name.
    pub fn name(&self) -> (r: &'static str)
        ensures
            r@ == "django"@,
    {
        "django"
    }

    /// Migrations applied, static files collected, allowed hosts set.
    pub fn tests(&self) -> (r: Vec<SmokeTest>)
        ensures
            r@.len() == 3,
            forall|i: int| 0 <= i < r@.len() ==> (#[trigger] r@[i]).category == TestCategory::PostDeployment,
            r@[0].check == SmokeCheck::DjangoMigrations && r@[0].severity == Severity::High && r@[0].timeout
                == secs(30),
            r@[1].check == SmokeCheck::DjangoStaticFiles && r@[1].severity == Severity::Medium && r@[1].timeout
                == secs(15),
            r@[2].check == SmokeCheck::DjangoAllowedHosts && r@[2].severity == Severity::Critical && r@[2].timeout
                == secs(10),
            r@[0].name@ == "django_check_migrations"@,
            r@[1].name@ == "django_check_static_files"@,
            r@[2].name@ == "django_check_allowed_hosts"@,
    {
        let mut v = Vec::new();
        v.push(smoke_test("django_check_migrations", "Ensure Django migrations are applied", TestCategory::PostDeployment, Severity::High, 30, SmokeCheck::DjangoMigrations));
        v.push(smoke_test("django_check_static_files", "Verify static files collected", TestCategory::PostDeployment, Severity::Medium, 15, SmokeCheck::DjangoStaticFiles));
        v.push(smoke_test("django_check_allowed_hosts", "Verify ALLOWED_HOSTS configured correctly", TestCategory::PostDeployment, Severity::Critical, 10, SmokeCheck::DjangoAllowedHosts));
        v
    }
}

impl NodeJsPlugin {
    /// The plugin's name.
    pub fn name(&self) -> (r: &'static str)
        ensures
            r@ == "nodejs"@,
    {
        "nodejs"
    }

    /// Build artifacts present.
    pub fn tests(&self) -> (r: Vec<SmokeTest>)
        ensures
            r@.len() == 1,
            r@[0].category == TestCategory::PostBuild,
            r@[0].check == SmokeCheck::NodeJsBuildArtifacts && r@[0].severity == Severity::High && r@[0].timeout
                == secs(10),
            r@[0].name@ == "nodejs_check_build_artifacts"@,
    {
        let mut v = Vec::new();
        v.push(smoke_test("nodejs_check_build_artifacts", "Verify build artifacts exist", TestCategory::PostBuild, Severity::High, 10, SmokeCheck::NodeJsBuildArtifacts));
        v
    }
}

impl ReactVitePlugin {
    /// The plugin's name.
    pub fn name(&self) -> (r: &'static str)
        ensures
            r@ == "react-vite"@,
    {
        "react-vite"
    }

    /// Environment variables baked in, no localhost URLs in the build.
    pub fn tests(&self) -> (r: Vec<SmokeTest>)
        ensures
            r@.len() == 2,
            forall|i: int| 0 <= i < r@.len() ==> (#[trigger] r@[i]).category == TestCategory::PostBuild,
            forall|i: int| 0 <= i < r@.len() ==> (#[trigger] r@[i]).severity == Severity::Critical,
            r@[0].check == SmokeCheck::ViteEnvVars && r@[0].timeout == secs(15),
            r@[1].check == SmokeCheck::NoLocalhostUrls && r@[1].timeout == secs(15),
            r@[0].name@ == "vite_check_env_vars_baked"@,
            r@[1].name@ == "vite_check_no_localhost_urls"@,
    {
        let mut v = Vec::new();
        v.push(smoke_test("vite_check_env_vars_baked", "Ensure Vite environment variables baked into build", TestCategory::PostBuild, Severity::Critical, 15, SmokeCheck::ViteEnvVars));
        v.push(smoke_test("vite_check_no_localhost_urls", "Verify no localhost URLs in production build", TestCategory::PostBuild, Severity::Critical, 15, SmokeCheck::NoLocalhostUrls));
        v
    }
}

/// The checks of a framework.
pub enum FrameworkPlugin {
    Django(DjangoPlugin),
    NodeJs(NodeJsPlugin),
    ReactVite(ReactVitePlugin),
}

/// Which plugin, if any, a framework name selects (case-insensitively):
/// "django"; "nodejs" or "node"; "react", "vite" or "react-vite".
pub open spec fn plugin_for(lower: Seq<char>) -> Option<u8> {
    if lower == "django"@ {
        Some(0u8)
    } else if lower == "nodejs"@ || lower == "node"@ {
        Some(1u8)
    } else if lower == "react"@ || lower == "vite"@ || lower == "react-vite"@ {
        Some(2u8)
    } else {
        None
    }
}

/// The plugin of a framework, if there is one.
pub fn get_framework_plugin(framework: &str) -> (r: Option<FrameworkPlugin>)
    ensures
        match plugin_for(lowercase(framework@)) {
            Some(0u8) => r matches Some(FrameworkPlugin::Django(_)),
            Some(1u8) => r matches Some(FrameworkPlugin::NodeJs(_)),
            Some(2u8) => r matches Some(FrameworkPlugin::ReactVite(_)),
            _ => r is None,
        },
{
    let lower = to_lowercase(framework);
    let v = chars_of(lower.as_str());
    if eq_chars(&v, &chars_of("django")) {
        Some(FrameworkPlugin::Django(DjangoPlugin))
    } else if eq_chars(&v, &chars_of("nodejs")) || eq_chars(&v, &chars_of("node")) {
        Some(FrameworkPlugin::NodeJs(NodeJsPlugin))
    } else if eq_chars(&v, &chars_of("react")) || eq_chars(&v, &chars_of("vite")) || eq_chars(
        &v,
        &chars_of("react-vite"),
    ) {
        Some(FrameworkPlugin::ReactVite(ReactVitePlugin))
    } else {
        None
    }
}

impl FrameworkPlugin {
    /// The plugin's name.
    pub fn name(&self) -> (r: &'static str)
        ensures
            r@ == (match self {
                FrameworkPlugin::Django(_) => "django"@,
                FrameworkPlugin::NodeJs(_) => "nodejs"@,
                FrameworkPlugin::ReactVite(_) => "react-vite"@,
            }),
    {
        match self {
            FrameworkPlugin::Django(p) => p.name(),
            FrameworkPlugin::NodeJs(p) => p.name(),
            FrameworkPlugin::ReactVite(p) => p.name(),
        }
    }

    /// The plugin's tests.
    pub fn tests(&self) -> (r: Vec<SmokeTest>)
        ensures
            r@.len() == (match self {
                FrameworkPlugin::Django(_) => 3int,
                FrameworkPlugin::NodeJs(_) => 1int,
                FrameworkPlugin::ReactVite(_) => 2int,
            }),
    {
        match self {
            FrameworkPlugin::Django(p) => p.tests(),
            FrameworkPlugin::NodeJs(p) => p.tests(),
            FrameworkPlugin::ReactVite(p) => p.tests(),
        }
    }
}

} // verus!
