//! The agent's deployment pipeline: the strategy a project is deployed
//! with, and the sequence of snapshot, smoke tests, deployment, proxy update
//! and rollback, as a state machine driven by the outcomes of each step.
use vstd::prelude::*;
use vstd::string::*;
use crate::adapters::RouteConfig;
use crate::config::{Config, ServiceConfig, VpsConfig};

use crate::protocol::RollbackEvent;
use crate::smoke_tests::TestCategory;
use crate::rollback::{RollbackConfig, RollbackReason, RollbackStrategy, strategy_name};
use crate::text::{push_decimal, push_str, str_eq, string_views};

verus! {

/// How a project is deployed.
#[derive(Debug, Clone)]
pub enum DeployStrategy {
    /// Standalone containers (simple mode).
    Standalone,
    /// Docker Compose deployment with the given file.
    Compose { file: String },
    /// Build with compose, deploy individually.
    Hybrid,
}

/// The compose files looked for, in order of preference.
pub open spec fn compose_candidates() -> Seq<Seq<char>> {
    seq![
        "docker-compose.deploy.yml"@,
        "docker-compose.vps.yml"@,
        "docker-compose.production.yml"@,
        "docker-compose.prod.yml"@,
        "docker-compose.yml"@,
        "docker-compose.yaml"@,
        "compose.yml"@,
        "compose.yaml"@,
        "infra/docker-compose.deploy.yml"@,
        "infra/docker-compose.yml"@,
        "deploy/docker-compose.yml"@,
        ".docker/docker-compose.yml"@,
    ]
}

/// The compose files looked for in a build directory, in order of
/// preference.
pub fn compose_file_candidates() -> (r: Vec<String>)
    ensures
        string_views(r@) == compose_candidates(),
{
    let mut r: Vec<String> = Vec::new();
    push_str(&mut r, "docker-compose.deploy.yml");
    push_str(&mut r, "docker-compose.vps.yml");
    push_str(&mut r, "docker-compose.production.yml");
    push_str(&mut r, "docker-compose.prod.yml");
    push_str(&mut r, "docker-compose.yml");
    push_str(&mut r, "docker-compose.yaml");
    push_str(&mut r, "compose.yml");
    push_str(&mut r, "compose.yaml");
    push_str(&mut r, "infra/docker-compose.deploy.yml");
    push_str(&mut r, "infra/docker-compose.yml");
    push_str(&mut r, "deploy/docker-compose.yml");
    push_str(&mut r, ".docker/docker-compose.yml");
    assert(string_views(r@) =~= compose_candidates());
    r
}

/// The first candidate that exists, by position.
pub open spec fn first_existing(exists: Seq<bool>) -> Option<int>
    decreases exists.len(),
{
    if exists.len() == 0 {
        None
    } else if exists.last() && first_existing(exists.drop_last()) is None {
        Some(exists.len() - 1)
    } else {
        first_existing(exists.drop_last())
    }
}

/// The compose file of a build directory: the preferred file when it
/// exists, else the first candidate that exists.
pub open spec fn compose_file_for(
    build_dir: Seq<char>,
    preferred: Option<Seq<char>>,
    preferred_exists: bool,
    candidate_exists: Seq<bool>,
) -> Result<Seq<char>, Seq<char>> {
    if preferred is Some && preferred_exists {
        Ok(preferred->0)
    } else {
        match first_existing(candidate_exists) {
            Some(i) => Ok(compose_candidates()[i]),
            None => Err("No docker-compose file found in "@ + build_dir),
        }
    }
}

/// The compose file to deploy: `preferred` when it exists in the build
/// directory (`preferred_exists`), else the first of
/// `compose_file_candidates` that exists (`candidate_exists[i]` for the
/// `i`-th); the error names the build directory.
pub fn find_compose_file(
    build_dir: &str,
    preferred: &Option<String>,
    preferred_exists: bool,
    candidate_exists: &Vec<bool>,
) -> (r: Result<String, String>)
    requires
        candidate_exists@.len() == compose_candidates().len(),
    ensures
        (match (
            r,
            compose_file_for(
                build_dir@,
                match preferred {
                    Some(p) => Some(p@),
                    None => None,
                },
                preferred_exists,
                candidate_exists@,
            ),
        ) {
            (Ok(f), Ok(g)) => f@ == g,
            (Err(e), Err(g)) => e@ == g,
            _ => false,
        }),
{
    match preferred {
        Some(p) => {
            if preferred_exists {
                return Ok(p.clone());
            }
        },
        None => {},
    }
    let names = compose_file_candidates();
    let mut i: usize = 0;
    while i < candidate_exists.len()
        invariant
            candidate_exists@.len() == compose_candidates().len(),
            string_views(names@) == compose_candidates(),
            !(preferred is Some && preferred_exists),
            i <= candidate_exists@.len(),
            first_existing(candidate_exists@.subrange(0, i as int)) is None,
        decreases candidate_exists@.len() - i,
    {
        let ghost next = candidate_exists@.subrange(0, i + 1);
        proof {
            assert(next.drop_last() =~= candidate_exists@.subrange(0, i as int));
        }
        if candidate_exists[i] {
            proof {
                lemma_first_existing_prefix(candidate_exists@, i as int);
                assert(string_views(names@)[i as int] == names@[i as int]@);
            }
            return Ok(names[i].clone());
        }
        i = i + 1;
    }
    assert(candidate_exists@.subrange(0, candidate_exists@.len() as int) =~= candidate_exists@);
    let mut e = String::from_str("No docker-compose file found in ");
    e.append(build_dir);
    Err(e)
}

proof fn lemma_first_existing_prefix(s: Seq<bool>, i: int)
    requires
        0 <= i < s.len(),
        s[i],
        first_existing(s.subrange(0, i)) is None,
    ensures
        first_existing(s) == Some(i),
    decreases s.len(),
{
    if i == s.len() - 1 {
        assert(s.drop_last() =~= s.subrange(0, i));
    } else {
        assert(s.drop_last().subrange(0, i) =~= s.subrange(0, i));
        lemma_first_existing_prefix(s.drop_last(), i);
    }
}

/// How the project is deployed: the configured strategy (`standalone`,
/// `hybrid`, or `compose`/`docker-compose` with the configured file looked
/// up as `find_compose_file` does); otherwise compose with the first
/// candidate that exists, else standalone.
pub open spec fn strategy_kind(configured: Option<Seq<char>>) -> int {
    match configured {
        Some(s) => if s == "standalone"@ {
            1
        } else if s == "hybrid"@ {
            2
        } else if s == "compose"@ || s == "docker-compose"@ {
            3
        } else {
            0
        },
        None => 0,
    }
}

/// The deployment strategy of a project.  `configured` is the configured
/// strategy; the compose file is looked up as `find_compose_file` does,
/// with the configured file (`preferred`) for an explicit compose strategy
/// and without it otherwise.
pub fn determine_strategy(
    configured: Option<&str>,
    build_dir: &str,
    preferred: &Option<String>,
    preferred_exists: bool,
    candidate_exists: &Vec<bool>,
) -> (r: Result<DeployStrategy, String>)
    requires
        candidate_exists@.len() == compose_candidates().len(),
    ensures
        ({
            let kind = strategy_kind(
                match configured {
                    Some(s) => Some(s@),
                    None => None,
                },
            );
            let explicit = compose_file_for(
                build_dir@,
                match preferred {
                    Some(p) => Some(p@),
                    None => None,
                },
                preferred_exists,
                candidate_exists@,
            );
            let auto = compose_file_for(build_dir@, None, false, candidate_exists@);
            &&& (kind == 1 ==> (r matches Ok(DeployStrategy::Standalone)))
            &&& (kind == 2 ==> (r matches Ok(DeployStrategy::Hybrid)))
            &&& kind == 3 ==> (match explicit {
                Ok(f) => r matches Ok(DeployStrategy::Compose { file }) && file@ == f,
                Err(e) => r matches Err(x) && x@ == e,
            })
            &&& kind == 0 ==> (match auto {
                Ok(f) => r matches Ok(DeployStrategy::Compose { file }) && file@ == f,
                Err(_) => (r matches Ok(DeployStrategy::Standalone)),
            })
        }),
{
    match configured {
        Some(s) => {
            if str_eq(s, "standalone") {
                return Ok(DeployStrategy::Standalone);
            } else if str_eq(s, "hybrid") {
                return Ok(DeployStrategy::Hybrid);
            } else if str_eq(s, "compose") || str_eq(s, "docker-compose") {
                return match find_compose_file(build_dir, preferred, preferred_exists, candidate_exists) {
                    Ok(file) => Ok(DeployStrategy::Compose { file }),
                    Err(e) => Err(e),
                };
            }
        },
        None => {},
    }
    match find_compose_file(build_dir, &None, false, candidate_exists) {
        Ok(file) => Ok(DeployStrategy::Compose { file }),
        Err(_) => Ok(DeployStrategy::Standalone),
    }
}

// ---------------------------------------------------------------------------
// The deployment state machine
// ---------------------------------------------------------------------------

/// What the pipeline was configured with.
#[derive(Debug, Clone, Copy)]
pub struct DeploySettings {
    /// Smoke tests run before and after the deployment.
    pub smoke_tests: bool,
    /// Critical smoke-test failures fail the deployment.
    pub fail_on_error: bool,
    /// A snapshot is taken first, so that a failure can be rolled back.
    pub rollback: bool,
    /// Failures are rolled back automatically.
    pub auto_rollback: bool,
    /// The proxy is updated after deploying (a configuration is present).
    pub update_proxy: bool,
}

/// Why a deployment failed.
#[derive(Debug, Clone)]
pub enum DeployFailure {
    PreDeploymentTests(String),
    Deployment(String),
    Proxy(String),
    /// Post-deployment smoke tests had this many critical failures.
    SmokeTests(usize),
    TestExecution(String),
}

/// What set a rollback off.
#[derive(Debug, Clone, Copy, PartialEq, Eq, Structural)]
pub enum RollbackTrigger {
    DeploymentFailure,
    SmokeTestFailure,
    TestExecutionFailure,
}

/// Where the pipeline stands.
#[derive(Debug, Clone)]
pub enum DeployPhase {
    Start,
    Snapshotting,
    PreDeploymentTests,
    Deploying,
    UpdatingProxy,
    PostDeploymentTests,
    /// Rolling back; the deployment then fails with this failure.
    RollingBack(DeployFailure),
    Finished,
}

/// The outcome of the last step.
#[derive(Debug, Clone)]
pub enum DeployEvent {
    Begin,
    SnapshotCreated(String),
    SnapshotFailed,
    /// A test run finished with this report.
    TestsFinished { critical_failures: usize, warnings: usize },
    /// A test run stopped with an error.
    TestsErrored(String),
    DeploymentSucceeded,
    DeploymentFailed(String),
    ProxyUpdated,
    ProxyFailed(String),
    RollbackSucceeded { duration_secs: u64 },
    RollbackFailed(String),
}

/// What the pipeline asks for next.
#[derive(Debug)]
pub enum DeployAction {
    /// Announce that a snapshot is being taken.
    NotifySnapshotStarted,
    CreateSnapshot,
    NotifySnapshotCreated(String),
    RunTests(TestCategory),
    RunDeployment,
    UpdateProxy,
    NotifyRollbackStarted(RollbackTrigger),
    Rollback(RollbackReason),
    NotifyRollbackSucceeded(u64),
    NotifyRollbackFailed(String),
    /// The deployment is over.
    Finish(Result<(), DeployFailure>),
}

/// After the snapshot step: pre-deployment tests, or the deployment.
pub open spec fn tests_or_deploy(s: DeploySettings) -> (DeployPhase, Seq<DeployAction>) {
    if s.smoke_tests {
        (DeployPhase::PreDeploymentTests, seq![DeployAction::RunTests(TestCategory::PreDeployment)])
    } else {
        (DeployPhase::Deploying, seq![DeployAction::RunDeployment])
    }
}

/// After the proxy step: post-deployment tests, or success.
pub open spec fn post_tests_or_done(s: DeploySettings) -> (DeployPhase, Seq<DeployAction>) {
    if s.smoke_tests {
        (DeployPhase::PostDeploymentTests, seq![DeployAction::RunTests(TestCategory::PostDeployment)])
    } else {
        (DeployPhase::Finished, seq![DeployAction::Finish(Ok(()))])
    }
}

/// After a successful deployment: the proxy update, or what follows it.
pub open spec fn after_deployment(s: DeploySettings) -> (DeployPhase, Seq<DeployAction>) {
    if s.update_proxy {
        (DeployPhase::UpdatingProxy, seq![DeployAction::UpdateProxy])
    } else {
        post_tests_or_done(s)
    }
}

/// On a failure: a rollback announced and started when rollback is enabled
/// and automatic, else the failure.
pub open spec fn on_failure(
    s: DeploySettings,
    trigger: RollbackTrigger,
    reason: RollbackReason,
    f: DeployFailure,
) -> (DeployPhase, Seq<DeployAction>) {
    if s.rollback && s.auto_rollback {
        (
            DeployPhase::RollingBack(f),
            seq![DeployAction::NotifyRollbackStarted(trigger), DeployAction::Rollback(reason)],
        )
    } else {
        (DeployPhase::Finished, seq![DeployAction::Finish(Err(f))])
    }
}

/// The pipeline's next phase and actions after an event.  An event that
/// does not belong to the phase changes nothing.
pub open spec fn deploy_transition(s: DeploySettings, phase: DeployPhase, event: DeployEvent) -> (
    DeployPhase,
    Seq<DeployAction>,
) {
    match (phase, event) {
        (DeployPhase::Start, DeployEvent::Begin) => if s.rollback {
            (DeployPhase::Snapshotting, seq![DeployAction::NotifySnapshotStarted, DeployAction::CreateSnapshot])
        } else {
            tests_or_deploy(s)
        },
        (DeployPhase::Snapshotting, DeployEvent::SnapshotCreated(id)) => {
            let next = tests_or_deploy(s);
            (next.0, seq![DeployAction::NotifySnapshotCreated(id)] + next.1)
        },
        (DeployPhase::Snapshotting, DeployEvent::SnapshotFailed) => tests_or_deploy(s),
        (DeployPhase::PreDeploymentTests, DeployEvent::TestsFinished { .. }) => (
            DeployPhase::Deploying,
            seq![DeployAction::RunDeployment],
        ),
        (DeployPhase::PreDeploymentTests, DeployEvent::TestsErrored(e)) => (
            DeployPhase::Finished,
            seq![DeployAction::Finish(Err(DeployFailure::PreDeploymentTests(e)))],
        ),
        (DeployPhase::Deploying, DeployEvent::DeploymentSucceeded) => after_deployment(s),
        (DeployPhase::Deploying, DeployEvent::DeploymentFailed(e)) => on_failure(
            s,
            RollbackTrigger::DeploymentFailure,
            RollbackReason::Manual,
            DeployFailure::Deployment(e),
        ),
        (DeployPhase::UpdatingProxy, DeployEvent::ProxyUpdated) => post_tests_or_done(s),
        (DeployPhase::UpdatingProxy, DeployEvent::ProxyFailed(e)) => (
            DeployPhase::Finished,
            seq![DeployAction::Finish(Err(DeployFailure::Proxy(e)))],
        ),
        (DeployPhase::PostDeploymentTests, DeployEvent::TestsFinished { critical_failures, .. }) => if
        critical_failures > 0 && s.fail_on_error {
            on_failure(
                s,
                RollbackTrigger::SmokeTestFailure,
                RollbackReason::SmokeTestFailure,
                DeployFailure::SmokeTests(critical_failures),
            )
        } else {
            (DeployPhase::Finished, seq![DeployAction::Finish(Ok(()))])
        },
        (DeployPhase::PostDeploymentTests, DeployEvent::TestsErrored(e)) => on_failure(
            s,
            RollbackTrigger::TestExecutionFailure,
            RollbackReason::SmokeTestFailure,
            DeployFailure::TestExecution(e),
        ),
        (DeployPhase::RollingBack(f), DeployEvent::RollbackSucceeded { duration_secs }) => (
            DeployPhase::Finished,
            seq![DeployAction::NotifyRollbackSucceeded(duration_secs), DeployAction::Finish(Err(f))],
        ),
        (DeployPhase::RollingBack(f), DeployEvent::RollbackFailed(e)) => (
            DeployPhase::Finished,
            seq![DeployAction::NotifyRollbackFailed(e), DeployAction::Finish(Err(f))],
        ),
        (p, _) => (p, Seq::empty()),
    }
}

fn tests_or_deploy_exec(s: &DeploySettings) -> (r: (DeployPhase, Vec<DeployAction>))
    ensures
        (r.0, r.1@) == tests_or_deploy(*s),
{
    let mut v: Vec<DeployAction> = Vec::new();
    if s.smoke_tests {
        v.push(DeployAction::RunTests(TestCategory::PreDeployment));
        assert(v@ =~= seq![DeployAction::RunTests(TestCategory::PreDeployment)]);
        (DeployPhase::PreDeploymentTests, v)
    } else {
        v.push(DeployAction::RunDeployment);
        assert(v@ =~= seq![DeployAction::RunDeployment]);
        (DeployPhase::Deploying, v)
    }
}

fn post_tests_or_done_exec(s: &DeploySettings) -> (r: (DeployPhase, Vec<DeployAction>))
    ensures
        (r.0, r.1@) == post_tests_or_done(*s),
{
    let mut v: Vec<DeployAction> = Vec::new();
    if s.smoke_tests {
        v.push(DeployAction::RunTests(TestCategory::PostDeployment));
        assert(v@ =~= seq![DeployAction::RunTests(TestCategory::PostDeployment)]);
        (DeployPhase::PostDeploymentTests, v)
    } else {
        v.push(DeployAction::Finish(Ok(())));
        assert(v@ =~= seq![DeployAction::Finish(Ok(()))]);
        (DeployPhase::Finished, v)
    }
}

fn on_failure_exec(s: &DeploySettings, trigger: RollbackTrigger, reason: RollbackReason, f: DeployFailure) -> (r: (
    DeployPhase,
    Vec<DeployAction>,
))
    ensures
        (r.0, r.1@) == on_failure(*s, trigger, reason, f),
{
    let mut v: Vec<DeployAction> = Vec::new();
    if s.rollback && s.auto_rollback {
        v.push(DeployAction::NotifyRollbackStarted(trigger));
        v.push(DeployAction::Rollback(reason));
        assert(v@ =~= seq![DeployAction::NotifyRollbackStarted(trigger), DeployAction::Rollback(reason)]);
        (DeployPhase::RollingBack(f), v)
    } else {
        v.push(DeployAction::Finish(Err(f)));
        assert(v@ =~= seq![DeployAction::Finish(Err(f))]);
        (DeployPhase::Finished, v)
    }
}

/// The pipeline's next phase and the actions to perform after an event
/// (see `deploy_transition`).
pub fn deploy_step(s: &DeploySettings, phase: DeployPhase, event: DeployEvent) -> (r: (DeployPhase, Vec<DeployAction>))
    ensures
        (r.0, r.1@) == deploy_transition(*s, phase, event),
        s.smoke_tests ==> forall|k: int|
            0 <= k < r.1@.len() && (#[trigger] r.1@[k] matches DeployAction::Finish(Ok(_))) ==> phase is PostDeploymentTests
                && event is TestsFinished,
        s.smoke_tests && phase is Deploying && event is DeploymentSucceeded ==> (if s.update_proxy {
            r.0 is UpdatingProxy && r.1@ == seq![DeployAction::UpdateProxy]
        } else {
            r.0 is PostDeploymentTests && r.1@ == seq![DeployAction::RunTests(TestCategory::PostDeployment)]
        }),
{
    proof {
        if s.smoke_tests {
            lemma_success_only_after_post_tests(*s, phase, event);
            lemma_post_tests_follow_deployment(*s);
        }
    }
    match (phase, event) {
        (DeployPhase::Start, DeployEvent::Begin) => {
            if s.rollback {
                let mut v: Vec<DeployAction> = Vec::new();
                v.push(DeployAction::NotifySnapshotStarted);
                v.push(DeployAction::CreateSnapshot);
                assert(v@ =~= seq![DeployAction::NotifySnapshotStarted, DeployAction::CreateSnapshot]);
                (DeployPhase::Snapshotting, v)
            } else {
                tests_or_deploy_exec(s)
            }
        },
        (DeployPhase::Snapshotting, DeployEvent::SnapshotCreated(id)) => {
            let (p, rest) = tests_or_deploy_exec(s);
            let mut v: Vec<DeployAction> = Vec::new();
            v.push(DeployAction::NotifySnapshotCreated(id));
            let ghost v0 = v@;
            let mut rest = rest;
            let ghost r0 = rest@;
            v.append(&mut rest);
            assert(v@ =~= v0 + r0);
            (p, v)
        },
        (DeployPhase::Snapshotting, DeployEvent::SnapshotFailed) => tests_or_deploy_exec(s),
        (DeployPhase::PreDeploymentTests, DeployEvent::TestsFinished { .. }) => {
            let mut v: Vec<DeployAction> = Vec::new();
            v.push(DeployAction::RunDeployment);
            assert(v@ =~= seq![DeployAction::RunDeployment]);
            (DeployPhase::Deploying, v)
        },
        (DeployPhase::PreDeploymentTests, DeployEvent::TestsErrored(e)) => {
            let mut v: Vec<DeployAction> = Vec::new();
            v.push(DeployAction::Finish(Err(DeployFailure::PreDeploymentTests(e))));
            assert(v@ =~= seq![DeployAction::Finish(Err(DeployFailure::PreDeploymentTests(e)))]);
            (DeployPhase::Finished, v)
        },
        (DeployPhase::Deploying, DeployEvent::DeploymentSucceeded) => {
            if s.update_proxy {
                let mut v: Vec<DeployAction> = Vec::new();
                v.push(DeployAction::UpdateProxy);
                assert(v@ =~= seq![DeployAction::UpdateProxy]);
                (DeployPhase::UpdatingProxy, v)
            } else {
                post_tests_or_done_exec(s)
            }
        },
        (DeployPhase::Deploying, DeployEvent::DeploymentFailed(e)) => on_failure_exec(
            s,
            RollbackTrigger::DeploymentFailure,
            RollbackReason::Manual,
            DeployFailure::Deployment(e),
        ),
        (DeployPhase::UpdatingProxy, DeployEvent::ProxyUpdated) => post_tests_or_done_exec(s),
        (DeployPhase::UpdatingProxy, DeployEvent::ProxyFailed(e)) => {
            let mut v: Vec<DeployAction> = Vec::new();
            v.push(DeployAction::Finish(Err(DeployFailure::Proxy(e))));
            assert(v@ =~= seq![DeployAction::Finish(Err(DeployFailure::Proxy(e)))]);
            (DeployPhase::Finished, v)
        },
        (DeployPhase::PostDeploymentTests, DeployEvent::TestsFinished { critical_failures, warnings }) => {
            if critical_failures > 0 && s.fail_on_error {
                on_failure_exec(
                    s,
                    RollbackTrigger::SmokeTestFailure,
                    RollbackReason::SmokeTestFailure,
                    DeployFailure::SmokeTests(critical_failures),
                )
            } else {
                let mut v: Vec<DeployAction> = Vec::new();
                v.push(DeployAction::Finish(Ok(())));
                assert(v@ =~= seq![DeployAction::Finish(Ok(()))]);
                (DeployPhase::Finished, v)
            }
        },
        (DeployPhase::PostDeploymentTests, DeployEvent::TestsErrored(e)) => on_failure_exec(
            s,
            RollbackTrigger::TestExecutionFailure,
            RollbackReason::SmokeTestFailure,
            DeployFailure::TestExecution(e),
        ),
        (DeployPhase::RollingBack(f), DeployEvent::RollbackSucceeded { duration_secs }) => {
            let mut v: Vec<DeployAction> = Vec::new();
            v.push(DeployAction::NotifyRollbackSucceeded(duration_secs));
            v.push(DeployAction::Finish(Err(f)));
            assert(v@ =~= seq![DeployAction::NotifyRollbackSucceeded(duration_secs), DeployAction::Finish(Err(f))]);
            (DeployPhase::Finished, v)
        },
        (DeployPhase::RollingBack(f), DeployEvent::RollbackFailed(e)) => {
            let mut v: Vec<DeployAction> = Vec::new();
            v.push(DeployAction::NotifyRollbackFailed(e));
            v.push(DeployAction::Finish(Err(f)));
            assert(v@ =~= seq![DeployAction::NotifyRollbackFailed(e), DeployAction::Finish(Err(f))]);
            (DeployPhase::Finished, v)
        },
        (p, _) => (p, Vec::new()),
    }
}


/// With smoke tests on, a deployment is only ever reported successful at
/// the end of its post-deployment tests.
pub proof fn lemma_success_only_after_post_tests(s: DeploySettings, phase: DeployPhase, event: DeployEvent)
    requires
        s.smoke_tests,
    ensures
        forall|k: int|
            0 <= k < deploy_transition(s, phase, event).1.len() && (#[trigger] deploy_transition(s, phase, event).1[k]
                matches DeployAction::Finish(Ok(_))) ==> phase is PostDeploymentTests && event is TestsFinished,
{
}

/// With smoke tests on, a successful deployment is followed by the
/// post-deployment tests: at once without a proxy update, else once the
/// proxy is updated.
pub proof fn lemma_post_tests_follow_deployment(s: DeploySettings)
    requires
        s.smoke_tests,
    ensures
        !s.update_proxy ==> deploy_transition(s, DeployPhase::Deploying, DeployEvent::DeploymentSucceeded).0 is PostDeploymentTests,
        !s.update_proxy ==> deploy_transition(s, DeployPhase::Deploying, DeployEvent::DeploymentSucceeded).1 == seq![
            DeployAction::RunTests(TestCategory::PostDeployment),
        ],
        s.update_proxy ==> deploy_transition(s, DeployPhase::Deploying, DeployEvent::DeploymentSucceeded).0 is UpdatingProxy,
        s.update_proxy ==> deploy_transition(s, DeployPhase::Deploying, DeployEvent::DeploymentSucceeded).1 == seq![
            DeployAction::UpdateProxy,
        ],
        deploy_transition(s, DeployPhase::UpdatingProxy, DeployEvent::ProxyUpdated).0 is PostDeploymentTests,
        deploy_transition(s, DeployPhase::UpdatingProxy, DeployEvent::ProxyUpdated).1 == seq![
            DeployAction::RunTests(TestCategory::PostDeployment),
        ],
{
}

/// A rollback is only ever started when rollback is enabled and automatic,
/// and it is announced just before it starts.
pub proof fn lemma_rollback_only_when_enabled(s: DeploySettings, phase: DeployPhase, event: DeployEvent, k: int)
    requires
        0 <= k < deploy_transition(s, phase, event).1.len(),
        deploy_transition(s, phase, event).1[k] is Rollback,
    ensures
        s.rollback && s.auto_rollback,
        k > 0 && deploy_transition(s, phase, event).1[k - 1] is NotifyRollbackStarted,
{
}

/// A failed deployment step, or failed or erroring post-deployment tests
/// (when failures count), never end the deployment as a success.
pub proof fn lemma_failure_never_succeeds(s: DeploySettings, phase: DeployPhase, event: DeployEvent, k: int)
    requires
        0 <= k < deploy_transition(s, phase, event).1.len(),
        (phase is Deploying && event is DeploymentFailed) || (phase is PostDeploymentTests && event is TestsErrored)
            || (phase is PostDeploymentTests && (event matches DeployEvent::TestsFinished { critical_failures, .. }
            && critical_failures > 0 && s.fail_on_error)) || phase is RollingBack,
    ensures
        !(deploy_transition(s, phase, event).1[k] matches DeployAction::Finish(Ok(_))),
{
}

/// After a rollback, whatever its outcome, the deployment ends with the
/// failure that set it off.
pub proof fn lemma_rollback_keeps_failure(s: DeploySettings, f: DeployFailure, event: DeployEvent)
    requires
        event is RollbackSucceeded || event is RollbackFailed,
    ensures
        deploy_transition(s, DeployPhase::RollingBack(f), event).0 is Finished,
        deploy_transition(s, DeployPhase::RollingBack(f), event).1.last() == DeployAction::Finish(Err(f)),
{
}

/// With rollback enabled, a snapshot is taken before anything else.
pub proof fn lemma_snapshot_first(s: DeploySettings)
    requires
        s.rollback,
    ensures
        deploy_transition(s, DeployPhase::Start, DeployEvent::Begin).0 is Snapshotting,
        deploy_transition(s, DeployPhase::Start, DeployEvent::Begin).1 == seq![
            DeployAction::NotifySnapshotStarted,
            DeployAction::CreateSnapshot,
        ],
{
}


// ---------------------------------------------------------------------------
// What the steps need
// ---------------------------------------------------------------------------

/// The pipeline's settings: smoke tests as configured (on, failing on
/// errors, by default), the rollback settings, and a proxy update whenever
/// a configuration is given.
pub fn deploy_settings(config: Option<&Config>, rollback: &RollbackConfig) -> (r: DeploySettings)
    ensures
        r.smoke_tests == (match config {
            Some(c) => match c.smoke_tests {
                Some(st) => st.enabled,
                None => true,
            },
            None => true,
        }),
        r.fail_on_error == (match config {
            Some(c) => match c.smoke_tests {
                Some(st) => st.fail_on_error,
                None => true,
            },
            None => true,
        }),
        r.rollback == rollback.enabled,
        r.auto_rollback == rollback.auto_rollback_on_test_failure,
        r.update_proxy == config is Some,
{
    let (smoke_tests, fail_on_error) = match config {
        Some(c) => match &c.smoke_tests {
            Some(st) => (st.enabled, st.fail_on_error),
            None => (true, true),
        },
        None => (true, true),
    };
    DeploySettings {
        smoke_tests,
        fail_on_error,
        rollback: rollback.enabled,
        auto_rollback: rollback.auto_rollback_on_test_failure,
        update_proxy: config.is_some(),
    }
}

/// The reason words a rollback trigger is announced with.
pub open spec fn trigger_words(t: RollbackTrigger) -> Seq<char> {
    match t {
        RollbackTrigger::DeploymentFailure => "deployment_failure"@,
        RollbackTrigger::SmokeTestFailure => "smoke_test_failure"@,
        RollbackTrigger::TestExecutionFailure => "test_execution_failure"@,
    }
}

/// The rollback progress message an action announces, if it is an
/// announcement.
pub open spec fn notice_of(a: DeployAction, strategy: RollbackStrategy) -> Option<
    (Seq<char>, Seq<char>, Seq<char>, Seq<char>),
> {
    match a {
        DeployAction::NotifySnapshotStarted => Some(("SnapshotStarted"@, "pending"@, strategy_name(strategy), Seq::empty())),
        DeployAction::NotifySnapshotCreated(id) => Some(("SnapshotCreated"@, id@, strategy_name(strategy), Seq::empty())),
        DeployAction::NotifyRollbackStarted(t) => Some(("RollbackStarted"@, "current"@, "previous"@, trigger_words(t))),
        DeployAction::NotifyRollbackSucceeded(_) => Some(("RollbackSuccess"@, "previous"@, Seq::empty(), Seq::empty())),
        DeployAction::NotifyRollbackFailed(e) => Some(("RollbackFailed"@, e@, Seq::empty(), Seq::empty())),
        _ => None,
    }
}

/// The rollback progress event an action announces, if it is an
/// announcement: snapshot started (`pending`, with the strategy's name) and
/// created; rollback started from `current` to `previous` with the trigger;
/// rollback to `previous` succeeded (with its duration) or failed (with the
/// error).
pub fn rollback_notice(a: &DeployAction, strategy: RollbackStrategy) -> (r: Option<RollbackEvent>)
    ensures
        (match (a, r) {
            (DeployAction::NotifySnapshotStarted, Some(RollbackEvent::SnapshotStarted { snapshot_id, strategy: st })) =>
                snapshot_id@ == "pending"@ && st@ == strategy_name(strategy),
            (DeployAction::NotifySnapshotCreated(id), Some(RollbackEvent::SnapshotCreated { snapshot_id, strategy: st })) =>
                snapshot_id@ == id@ && st@ == strategy_name(strategy),
            (DeployAction::NotifyRollbackStarted(t), Some(RollbackEvent::RollbackStarted { from_snapshot_id, to_snapshot_id, reason })) =>
                from_snapshot_id@ == "current"@ && to_snapshot_id@ == "previous"@ && reason@ == trigger_words(*t),
            (DeployAction::NotifyRollbackSucceeded(d), Some(RollbackEvent::RollbackSuccess { snapshot_id, duration_secs })) =>
                snapshot_id@ == "previous"@ && duration_secs == *d,
            (DeployAction::NotifyRollbackFailed(e), Some(RollbackEvent::RollbackFailed { error })) => error@ == e@,
            (DeployAction::NotifySnapshotStarted, _) => false,
            (DeployAction::NotifySnapshotCreated(_), _) => false,
            (DeployAction::NotifyRollbackStarted(_), _) => false,
            (DeployAction::NotifyRollbackSucceeded(_), _) => false,
            (DeployAction::NotifyRollbackFailed(_), _) => false,
            (_, None) => true,
            _ => false,
        }),
{
    match a {
        DeployAction::NotifySnapshotStarted => Some(
            RollbackEvent::SnapshotStarted { snapshot_id: String::from_str("pending"), strategy: strategy.debug_name() },
        ),
        DeployAction::NotifySnapshotCreated(id) => Some(
            RollbackEvent::SnapshotCreated { snapshot_id: id.clone(), strategy: strategy.debug_name() },
        ),
        DeployAction::NotifyRollbackStarted(t) => {
            let reason = match t {
                RollbackTrigger::DeploymentFailure => String::from_str("deployment_failure"),
                RollbackTrigger::SmokeTestFailure => String::from_str("smoke_test_failure"),
                RollbackTrigger::TestExecutionFailure => String::from_str("test_execution_failure"),
            };
            Some(
                RollbackEvent::RollbackStarted {
                    from_snapshot_id: String::from_str("current"),
                    to_snapshot_id: String::from_str("previous"),
                    reason,
                },
            )
        },
        DeployAction::NotifyRollbackSucceeded(d) => Some(
            RollbackEvent::RollbackSuccess { snapshot_id: String::from_str("previous"), duration_secs: *d },
        ),
        DeployAction::NotifyRollbackFailed(e) => Some(RollbackEvent::RollbackFailed { error: e.clone() }),
        _ => None,
    }
}

/// The message of a failed deployment.
pub open spec fn failure_text(f: DeployFailure) -> Seq<char> {
    match f {
        DeployFailure::SmokeTests(n) => "🚨 Deployment failed smoke tests - "@ + crate::text::decimal(n as nat)
            + " critical failure(s)"@,
        DeployFailure::PreDeploymentTests(e) => e@,
        DeployFailure::Deployment(e) => e@,
        DeployFailure::Proxy(e) => e@,
        DeployFailure::TestExecution(e) => e@,
    }
}

/// The message of a failed deployment.
pub fn failure_message(f: &DeployFailure) -> (r: String)
    ensures
        r@ == failure_text(*f),
{
    match f {
        DeployFailure::SmokeTests(n) => {
            let mut r = String::from_str("🚨 Deployment failed smoke tests - ");
            push_decimal(&mut r, *n as u64);
            r.append(" critical failure(s)");
            r
        },
        DeployFailure::PreDeploymentTests(e) => e.clone(),
        DeployFailure::Deployment(e) => e.clone(),
        DeployFailure::Proxy(e) => e.clone(),
        DeployFailure::TestExecution(e) => e.clone(),
    }
}

/// The container and image of a standalone deployment:
/// `shipwright-<project>` running `<project>:latest`.
pub fn standalone_names(project_name: &str) -> (r: (String, String))
    ensures
        r.0@ == "shipwright-"@ + project_name@,
        r.1@ == project_name@ + ":latest"@,
{
    let mut c = String::from_str("shipwright-");
    c.append(project_name);
    let mut i = String::from_str(project_name);
    i.append(":latest");
    (c, i)
}

/// The arguments of `docker-compose` that start a project's services.
pub fn compose_up_args(compose_file: &str) -> (r: Vec<String>)
    ensures
        string_views(r@) == seq!["-f"@, compose_file@, "up"@, "-d"@, "--remove-orphans"@],
{
    let mut r: Vec<String> = Vec::new();
    push_str(&mut r, "-f");
    push_str(&mut r, compose_file);
    push_str(&mut r, "up");
    push_str(&mut r, "-d");
    push_str(&mut r, "--remove-orphans");
    assert(string_views(r@) =~= seq!["-f"@, compose_file@, "up"@, "-d"@, "--remove-orphans"@]);
    r
}

/// The proxy is updated automatically unless the configuration turns it
/// off.
pub fn proxy_auto_update(config: &Config) -> (r: bool)
    ensures
        r == (match config.infrastructure {
            Some(i) => match i.proxy {
                Some(p) => p.auto_update,
                None => true,
            },
            None => true,
        }),
{
    match &config.infrastructure {
        Some(i) => match &i.proxy {
            Some(p) => p.auto_update,
            None => true,
        },
        None => true,
    }
}

/// The route of an exposed service: its domain (else the server's), name,
/// port and path, without CORS, and with TLS when an ACME email is set.
pub open spec fn route_of(s: ServiceConfig, vps: VpsConfig, r: RouteConfig) -> bool {
    &&& r.domain@ == (match s.domain {
        Some(d) => d@,
        None => vps.domain->0@,
    })
    &&& r.service_name@ == s.name@
    &&& r.port == s.port
    &&& r.path == s.path
    &&& !r.enable_cors
    &&& r.enable_tls == vps.acme_email is Some
}

/// The exposed services, in order.
pub open spec fn exposed(ss: Seq<ServiceConfig>) -> Seq<ServiceConfig>
    decreases ss.len(),
{
    if ss.len() == 0 {
        Seq::empty()
    } else if ss.last().expose {
        exposed(ss.drop_last()).push(ss.last())
    } else {
        exposed(ss.drop_last())
    }
}

proof fn lemma_exposed_len(ss: Seq<ServiceConfig>)
    ensures
        exposed(ss).len() <= ss.len(),
    decreases ss.len(),
{
    if ss.len() > 0 {
        lemma_exposed_len(ss.drop_last());
    }
}

/// The routes to add to the proxy: one per exposed service of the server
/// configuration.  Fails without a server configuration, or when an
/// exposed service has no domain and the server has none either.
pub fn proxy_routes(config: &Config) -> (r: Result<Vec<RouteConfig>, String>)
    ensures
        config.deploy.vps is None ==> (r matches Err(e) && e@ == "No VPS config found"@),
        config.deploy.vps matches Some(vps) ==> {
            let ex = exposed(vps.services@);
            if vps.domain is None && exists|i: int| 0 <= i < ex.len() && ex[i].domain is None {
                r matches Err(e) && e@ == "No domain specified for service"@
            } else {
                r matches Ok(routes) && routes@.len() == ex.len() && forall|i: int|
                    0 <= i < ex.len() ==> route_of(ex[i], vps, #[trigger] routes@[i])
            }
        },
{
    let vps = match &config.deploy.vps {
        Some(v) => v,
        None => return Err(String::from_str("No VPS config found")),
    };
    let enable_tls = vps.acme_email.is_some();
    let mut routes: Vec<RouteConfig> = Vec::new();
    let mut i: usize = 0;
    while i < vps.services.len()
        invariant
            i <= vps.services@.len(),
            config.deploy.vps == Some(*vps),
            enable_tls == vps.acme_email is Some,
            vps.domain is Some || forall|j: int|
                0 <= j < exposed(vps.services@.subrange(0, i as int)).len() ==> exposed(
                    vps.services@.subrange(0, i as int),
                )[j].domain is Some,
            routes@.len() == exposed(vps.services@.subrange(0, i as int)).len(),
            forall|j: int|
                0 <= j < routes@.len() ==> route_of(
                    exposed(vps.services@.subrange(0, i as int))[j],
                    *vps,
                    #[trigger] routes@[j],
                ),
        decreases vps.services@.len() - i,
    {
        let ghost pre = vps.services@.subrange(0, i as int);
        let ghost next = vps.services@.subrange(0, i + 1);
        proof {
            assert(next.drop_last() =~= pre);
            assert(next.last() == vps.services@[i as int]);
        }
        let service = &vps.services[i];
        if service.expose {
            let domain = match &service.domain {
                Some(d) => d.clone(),
                None => match &vps.domain {
                    Some(d) => d.clone(),
                    None => {
                        proof {
                            let ex = exposed(vps.services@);
                            lemma_exposed_prefix(vps.services@, i as int);
                            assert(ex[exposed(pre).len() as int] == *service);
                        }
                        return Err(String::from_str("No domain specified for service"));
                    },
                },
            };
            let route = RouteConfig {
                domain,
                service_name: service.name.clone(),
                port: service.port,
                path: match &service.path {
                    Some(p) => Some(p.clone()),
                    None => None,
                },
                enable_cors: false,
                enable_tls,
            };
            routes.push(route);
        }
        i = i + 1;
    }
    assert(vps.services@.subrange(0, vps.services@.len() as int) =~= vps.services@);
    Ok(routes)
}

proof fn lemma_exposed_prefix(ss: Seq<ServiceConfig>, i: int)
    requires
        0 <= i < ss.len(),
        ss[i].expose,
    ensures
        exposed(ss.subrange(0, i)).len() < exposed(ss).len(),
        exposed(ss)[exposed(ss.subrange(0, i)).len() as int] == ss[i],
    decreases ss.len(),
{
    if i == ss.len() - 1 {
        assert(ss.drop_last() =~= ss.subrange(0, i));
    } else {
        lemma_exposed_prefix(ss.drop_last(), i);
        assert(ss.drop_last().subrange(0, i) =~= ss.subrange(0, i));
    }
}

} // verus!
