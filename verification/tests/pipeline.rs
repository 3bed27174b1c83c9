use shipwright::pipeline::{
    compose_file_candidates, compose_up_args, deploy_settings, deploy_step, determine_strategy, failure_message,
    find_compose_file, rollback_notice, standalone_names, DeployAction, DeployEvent, DeployFailure, DeployPhase,
    DeploySettings, DeployStrategy, RollbackTrigger,
};
use shipwright::protocol::RollbackEvent;
use shipwright::rollback::{
    actual_strategy, container_service_name, determine_hybrid_strategy, estimated_rollback_time, git_rollback_dir,
    migration_paths, rollback_plan, rollback_started, rollback_tag, snapshot_tags_present, split_image_ref,
    GitCommitStrategy, ImageTaggingStrategy, RollbackConfig, RollbackReason, RollbackStrategy, SnapshotStatus,
    SnapshotStrategy,
};

fn settings(rollback: bool) -> DeploySettings {
    DeploySettings { smoke_tests: true, fail_on_error: true, rollback, auto_rollback: true, update_proxy: true }
}

fn phase_name(p: &DeployPhase) -> &'static str {
    match p {
        DeployPhase::Start => "start",
        DeployPhase::Snapshotting => "snapshotting",
        DeployPhase::PreDeploymentTests => "pre",
        DeployPhase::Deploying => "deploying",
        DeployPhase::UpdatingProxy => "proxy",
        DeployPhase::PostDeploymentTests => "post",
        DeployPhase::RollingBack(_) => "rolling back",
        DeployPhase::Finished => "finished",
    }
}

#[test]
fn a_successful_deployment_runs_every_step() {
    let s = settings(true);
    let (p, a) = deploy_step(&s, DeployPhase::Start, DeployEvent::Begin);
    assert_eq!(phase_name(&p), "snapshotting");
    assert!(matches!(a[0], DeployAction::NotifySnapshotStarted));
    assert!(matches!(a[1], DeployAction::CreateSnapshot));
    let (p, a) = deploy_step(&s, p, DeployEvent::SnapshotCreated("snap-1".to_string()));
    assert_eq!(phase_name(&p), "pre");
    assert!(matches!(&a[0], DeployAction::NotifySnapshotCreated(id) if id == "snap-1"));
    let (p, _) = deploy_step(&s, p, DeployEvent::TestsFinished { critical_failures: 3, warnings: 0 });
    assert_eq!(phase_name(&p), "deploying");
    let (p, a) = deploy_step(&s, p, DeployEvent::DeploymentSucceeded);
    assert_eq!(phase_name(&p), "proxy");
    assert!(matches!(a[0], DeployAction::UpdateProxy));
    let (p, _) = deploy_step(&s, p, DeployEvent::ProxyUpdated);
    assert_eq!(phase_name(&p), "post");
    let (p, a) = deploy_step(&s, p, DeployEvent::TestsFinished { critical_failures: 0, warnings: 2 });
    assert_eq!(phase_name(&p), "finished");
    assert!(matches!(a[0], DeployAction::Finish(Ok(()))));
}

#[test]
fn failed_smoke_tests_are_rolled_back_and_still_fail() {
    let s = settings(true);
    let (p, a) = deploy_step(&s, DeployPhase::PostDeploymentTests, DeployEvent::TestsFinished { critical_failures: 2, warnings: 0 });
    assert_eq!(phase_name(&p), "rolling back");
    assert!(matches!(a[0], DeployAction::NotifyRollbackStarted(RollbackTrigger::SmokeTestFailure)));
    assert!(matches!(a[1], DeployAction::Rollback(RollbackReason::SmokeTestFailure)));
    let (p, a) = deploy_step(&s, p, DeployEvent::RollbackSucceeded { duration_secs: 9 });
    assert_eq!(phase_name(&p), "finished");
    assert!(matches!(a[0], DeployAction::NotifyRollbackSucceeded(9)));
    match &a[1] {
        DeployAction::Finish(Err(f)) => {
            assert_eq!(failure_message(f), "🚨 Deployment failed smoke tests - 2 critical failure(s)")
        }
        other => panic!("{:?}", other),
    }
}

#[test]
fn without_rollback_a_failure_ends_the_deployment() {
    let s = settings(false);
    let (p, a) = deploy_step(&s, DeployPhase::Start, DeployEvent::Begin);
    assert_eq!(phase_name(&p), "pre");
    assert!(matches!(a[0], DeployAction::RunTests(_)));
    let (p, a) = deploy_step(&s, DeployPhase::Deploying, DeployEvent::DeploymentFailed("build broke".to_string()));
    assert_eq!(phase_name(&p), "finished");
    assert!(matches!(&a[0], DeployAction::Finish(Err(DeployFailure::Deployment(e))) if e == "build broke"));
    // An event that does not belong to the phase changes nothing.
    let (p, a) = deploy_step(&s, DeployPhase::Deploying, DeployEvent::ProxyUpdated);
    assert_eq!(phase_name(&p), "deploying");
    assert!(a.is_empty());
}

#[test]
fn settings_come_from_configuration() {
    let s = deploy_settings(None, &RollbackConfig::default());
    assert!(s.smoke_tests && s.fail_on_error && !s.rollback && s.auto_rollback && !s.update_proxy);
}

#[test]
fn rollback_notices() {
    match rollback_notice(&DeployAction::NotifySnapshotStarted, RollbackStrategy::GitCommit) {
        Some(RollbackEvent::SnapshotStarted { snapshot_id, strategy }) => {
            assert_eq!((snapshot_id.as_str(), strategy.as_str()), ("pending", "GitCommit"))
        }
        other => panic!("{:?}", other),
    }
    match rollback_notice(&DeployAction::NotifyRollbackStarted(RollbackTrigger::DeploymentFailure), RollbackStrategy::Snapshot) {
        Some(RollbackEvent::RollbackStarted { from_snapshot_id, to_snapshot_id, reason }) => {
            assert_eq!((from_snapshot_id.as_str(), to_snapshot_id.as_str(), reason.as_str()), ("current", "previous", "deployment_failure"))
        }
        other => panic!("{:?}", other),
    }
    assert!(rollback_notice(&DeployAction::RunDeployment, RollbackStrategy::Snapshot).is_none());
}

#[test]
fn compose_files_and_strategies() {
    let c = compose_file_candidates();
    assert_eq!(c.len(), 12);
    let mut exists = vec![false; 12];
    exists[4] = true;
    assert_eq!(find_compose_file("/b", &None, false, &exists).unwrap(), "docker-compose.yml");
    assert_eq!(find_compose_file("/b", &Some("my.yml".to_string()), true, &exists).unwrap(), "my.yml");
    assert_eq!(find_compose_file("/b", &None, false, &vec![false; 12]).unwrap_err(), "No docker-compose file found in /b");
    assert!(find_compose_file("/b", &None, false, &vec![false; 12]).is_err());
    match determine_strategy(None, "/b", &None, false, &exists).unwrap() {
        DeployStrategy::Compose { file } => assert_eq!(file, "docker-compose.yml"),
        other => panic!("{:?}", other),
    }
    assert!(matches!(determine_strategy(None, "/b", &None, false, &vec![false; 12]).unwrap(), DeployStrategy::Standalone));
    assert!(matches!(determine_strategy(Some("hybrid"), "/b", &None, false, &exists).unwrap(), DeployStrategy::Hybrid));
    assert!(matches!(determine_strategy(Some("standalone"), "/b", &None, false, &exists).unwrap(), DeployStrategy::Standalone));
    assert_eq!(standalone_names("shop"), ("shipwright-shop".to_string(), "shop:latest".to_string()));
    assert_eq!(compose_up_args("/b/c.yml"), vec!["-f", "/b/c.yml", "up", "-d", "--remove-orphans"]);
}

#[test]
fn rollback_strategies() {
    assert_eq!(determine_hybrid_strategy("shop-api", true, false), RollbackStrategy::Snapshot);
    assert_eq!(determine_hybrid_strategy("shop-web", false, false), RollbackStrategy::GitCommit);
    assert_eq!(determine_hybrid_strategy("shop-api", false, false), RollbackStrategy::ImageTagging);
    assert_eq!(actual_strategy(RollbackStrategy::GitCommit, "x", true, true), RollbackStrategy::GitCommit);
    assert_eq!(estimated_rollback_time(RollbackStrategy::ImageTagging), Some(10));
    assert_eq!(estimated_rollback_time(RollbackStrategy::Hybrid), None);
    assert_eq!(ImageTaggingStrategy.estimated_rollback_time(), 10);
    assert_eq!(GitCommitStrategy.estimated_rollback_time(), 180);
    assert_eq!(SnapshotStrategy.estimated_rollback_time(), 45);
    assert_eq!(migration_paths().len(), 5);
}

#[test]
fn image_references_and_tags() {
    assert_eq!(split_image_ref("reg:5000/app:1.2"), ("reg:5000/app".to_string(), "1.2".to_string()));
    assert_eq!(split_image_ref("app"), ("app".to_string(), "latest".to_string()));
    assert_eq!(container_service_name("/shop-shop-api", "shop"), "api");
    assert_eq!(rollback_tag(1700000000), "rollback-1700000000");
    let tags = vec![("api".to_string(), "rollback-1".to_string())];
    assert!(snapshot_tags_present(&tags, &vec!["reg/api:rollback-1".to_string()]));
    assert!(!snapshot_tags_present(&tags, &vec!["reg/api:latest".to_string()]));
    assert_eq!(git_rollback_dir("shop"), "/home/user/apps/shop");
}

#[test]
fn snapshots_and_rollback_events() {
    let img = ImageTaggingStrategy.snapshot("s1".to_string(), "shop", None, 5, vec![("api".to_string(), "rollback-5".to_string())]);
    assert_eq!(img.commit_sha, "unknown");
    assert_eq!(img.status, SnapshotStatus::Active);
    assert_eq!(img.triggered_by, "auto");
    let git = GitCommitStrategy.snapshot("s2".to_string(), "shop", "abc".to_string(), 6, "main".to_string(), "msg".to_string());
    assert_eq!(git.git_branch.as_deref(), Some("main"));
    let snap = SnapshotStrategy.snapshot("s3".to_string(), "shop", Some("def".to_string()), 7, SnapshotStrategy.snapshot_dir("s3"), None);
    assert_eq!(snap.snapshot_path.as_deref(), Some("/var/lib/shipwright/snapshots/s3"));
    assert_eq!(snap.commit_sha, "def");
    assert_eq!(rollback_plan(None, Some(img.clone())).unwrap_err(), "No previous successful deployment found");
    assert_eq!(rollback_plan(Some(img.clone()), None).unwrap_err(), "No active deployment found");
    let (to, from) = rollback_plan(Some(git.clone()), Some(snap.clone())).unwrap();
    assert_eq!((to.id.as_str(), from.id.as_str()), ("s2", "s3"));
    let ev = rollback_started("e1".to_string(), "shop", &from, &to, RollbackReason::Manual, 8, "cli");
    assert_eq!((ev.from_snapshot_id.as_str(), ev.to_snapshot_id.as_str()), ("s3", "s2"));
    assert!(ev.rollback_success.is_none());
}
