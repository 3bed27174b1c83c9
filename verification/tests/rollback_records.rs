use shipwright::rollback::{
    DeploymentSnapshot, HealthStatus, RollbackEvent, RollbackReason, RollbackStrategy, ServiceDeployment,
    SnapshotStatus,
};
use shipwright::rollback_storage::{
    order_newest_first, parse_reason, parse_snapshot_status, parse_strategy, reason_str, snapshot_status_str,
    strategy_str, RollbackManager, RollbackStorage,
};

fn snap(id: &str, project: &str, at: i64, status: SnapshotStatus, passed: Option<bool>) -> DeploymentSnapshot {
    DeploymentSnapshot {
        id: id.to_string(),
        project_id: project.to_string(),
        commit_sha: "abcdef0123".to_string(),
        deployed_at: at,
        status,
        strategy: RollbackStrategy::ImageTagging,
        image_tags: Some(vec![("web".to_string(), "rollback-1".to_string())]),
        git_branch: None,
        git_message: None,
        snapshot_path: None,
        database_backup_path: None,
        smoke_test_passed: passed,
        smoke_test_results: None,
        triggered_by: "auto".to_string(),
        rollback_from_id: None,
    }
}

fn event(id: &str, project: &str, at: i64) -> RollbackEvent {
    RollbackEvent {
        id: id.to_string(),
        project_id: project.to_string(),
        from_snapshot_id: "a".to_string(),
        to_snapshot_id: "b".to_string(),
        reason: RollbackReason::Manual,
        failure_details: None,
        rollback_started_at: at,
        rollback_completed_at: None,
        rollback_success: None,
        performed_by: "cli".to_string(),
    }
}

#[test]
fn stored_names_read_back() {
    for s in [SnapshotStatus::Active, SnapshotStatus::RolledBack, SnapshotStatus::Failed, SnapshotStatus::Superseded] {
        assert_eq!(parse_snapshot_status(snapshot_status_str(s)), s);
    }
    for g in [RollbackStrategy::ImageTagging, RollbackStrategy::GitCommit, RollbackStrategy::Snapshot, RollbackStrategy::Hybrid] {
        assert_eq!(parse_strategy(strategy_str(g)), g);
    }
    assert_eq!(strategy_str(RollbackStrategy::GitCommit), "git-commit");
    assert_eq!(parse_strategy("bogus"), RollbackStrategy::Hybrid);
    assert_eq!(parse_snapshot_status("bogus"), SnapshotStatus::Failed);
    assert_eq!(reason_str(RollbackReason::SmokeTestFailure), "smoke_test_failure");
    assert_eq!(parse_reason("bogus"), RollbackReason::Manual);
}

#[test]
fn duplicate_snapshot_is_refused() {
    let mut st = RollbackStorage::new();
    assert!(st.save_snapshot(&snap("s1", "p", 1, SnapshotStatus::Active, None)).is_ok());
    assert_eq!(
        st.save_snapshot(&snap("s1", "p", 2, SnapshotStatus::Active, None)),
        Err("Failed to save deployment snapshot".to_string())
    );
    assert_eq!(st.list_snapshots("p").unwrap().len(), 1);
}

#[test]
fn newest_active_and_successful_snapshots() {
    let mut st = RollbackStorage::new();
    st.save_snapshot(&snap("old", "p", 10, SnapshotStatus::Active, Some(true))).unwrap();
    st.save_snapshot(&snap("new", "p", 20, SnapshotStatus::Active, None)).unwrap();
    st.save_snapshot(&snap("other", "q", 30, SnapshotStatus::Active, Some(true))).unwrap();
    st.save_snapshot(&snap("gone", "p", 40, SnapshotStatus::Superseded, Some(true))).unwrap();
    assert_eq!(st.get_active_snapshot("p").unwrap().unwrap().id, "new");
    assert_eq!(st.get_last_successful_snapshot("p").unwrap().unwrap().id, "old");
    assert!(st.get_active_snapshot("none").unwrap().is_none());
}

#[test]
fn ties_go_to_the_first_saved() {
    let mut st = RollbackStorage::new();
    st.save_snapshot(&snap("first", "p", 5, SnapshotStatus::Active, None)).unwrap();
    st.save_snapshot(&snap("second", "p", 5, SnapshotStatus::Active, None)).unwrap();
    assert_eq!(st.get_active_snapshot("p").unwrap().unwrap().id, "first");
    let ids: Vec<String> = st.list_snapshots("p").unwrap().into_iter().map(|s| s.id).collect();
    assert_eq!(ids, vec!["first", "second"]);
}

#[test]
fn listing_is_newest_first() {
    let mut st = RollbackStorage::new();
    st.save_snapshot(&snap("a", "p", 3, SnapshotStatus::Active, None)).unwrap();
    st.save_snapshot(&snap("b", "q", 9, SnapshotStatus::Active, None)).unwrap();
    st.save_snapshot(&snap("c", "p", 7, SnapshotStatus::Failed, None)).unwrap();
    st.save_snapshot(&snap("d", "p", 1, SnapshotStatus::Active, None)).unwrap();
    let ids: Vec<String> = st.list_snapshots("p").unwrap().into_iter().map(|s| s.id).collect();
    assert_eq!(ids, vec!["c", "a", "d"]);
    let listed = st.list_snapshots("p").unwrap();
    assert_eq!(listed[0].image_tags, Some(vec![("web".to_string(), "rollback-1".to_string())]));
}

#[test]
fn order_of_positions() {
    let order = order_newest_first(&vec![5, 9, 5, 1, 9], &vec![true, true, true, false, true]);
    assert_eq!(order, vec![1, 4, 0, 2]);
}

#[test]
fn supersede_and_mark() {
    let mut st = RollbackStorage::new();
    st.save_snapshot(&snap("a", "p", 1, SnapshotStatus::Active, None)).unwrap();
    st.save_snapshot(&snap("b", "p", 2, SnapshotStatus::Active, None)).unwrap();
    st.save_snapshot(&snap("c", "q", 3, SnapshotStatus::Active, None)).unwrap();
    st.supersede_previous_snapshots("p", "b").unwrap();
    let p = st.list_snapshots("p").unwrap();
    assert_eq!(p[0].id, "b");
    assert_eq!(p[0].status, SnapshotStatus::Active);
    assert_eq!(p[1].status, SnapshotStatus::Superseded);
    assert_eq!(st.list_snapshots("q").unwrap()[0].status, SnapshotStatus::Active);
    st.mark_snapshot_as_rolled_back("b").unwrap();
    st.mark_snapshot_as_active("a").unwrap();
    assert_eq!(st.get_active_snapshot("p").unwrap().unwrap().id, "a");
}

#[test]
fn events_history_and_completion() {
    let mut st = RollbackStorage::new();
    st.save_rollback_event(&event("e1", "p", 100)).unwrap();
    st.save_rollback_event(&event("e2", "p", 200)).unwrap();
    st.save_rollback_event(&event("e3", "q", 300)).unwrap();
    assert_eq!(st.save_rollback_event(&event("e1", "p", 1)), Err("Failed to save rollback event".to_string()));
    st.complete_rollback_event_at("e1", true, 150).unwrap();
    let h = st.get_rollback_history("p").unwrap();
    assert_eq!(h.len(), 2);
    assert_eq!(h[0].id, "e2");
    assert_eq!(h[1].rollback_completed_at, Some(150));
    assert_eq!(h[1].rollback_success, Some(true));
    assert!(h[0].rollback_success.is_none());
}

#[test]
fn service_deployments_are_saved_once() {
    let mut st = RollbackStorage::new();
    let s = ServiceDeployment {
        id: "sd1".to_string(),
        snapshot_id: "s1".to_string(),
        service_name: "web".to_string(),
        container_id: None,
        image_name: Some("web".to_string()),
        image_tag: Some("latest".to_string()),
        health_status: HealthStatus::Healthy,
        health_check_output: None,
        rollback_strategy: RollbackStrategy::ImageTagging,
        startup_time_ms: Some(1200),
        memory_usage_mb: None,
    };
    assert!(st.save_service_deployment(&s).is_ok());
    assert_eq!(st.save_service_deployment(&s), Err("Failed to save service deployment".to_string()));
}

#[test]
fn recording_a_snapshot_supersedes_the_previous() {
    let mut m = RollbackManager::new(RollbackStorage::new());
    let first = m.record_snapshot(snap("a", "p", 1, SnapshotStatus::Active, Some(true)), RollbackStrategy::GitCommit).unwrap();
    assert_eq!(first.strategy, RollbackStrategy::GitCommit);
    m.record_snapshot(snap("b", "p", 2, SnapshotStatus::Active, None), RollbackStrategy::ImageTagging).unwrap();
    assert_eq!(m.storage().get_active_snapshot("p").unwrap().unwrap().id, "b");
    let listed = m.list_snapshots("p").unwrap();
    assert_eq!(listed[1].status, SnapshotStatus::Superseded);
    assert!(m.record_snapshot(snap("b", "p", 3, SnapshotStatus::Active, None), RollbackStrategy::Snapshot).is_err());
}

#[test]
fn rollback_needs_a_successful_snapshot() {
    let mut m = RollbackManager::new(RollbackStorage::new());
    assert_eq!(
        m.begin_rollback_at("p", RollbackReason::Manual, "cli", "e1".to_string(), 5).err(),
        Some("No previous successful deployment found".to_string())
    );
}

#[test]
fn successful_rollback_swaps_snapshots() {
    let mut st = RollbackStorage::new();
    st.save_snapshot(&snap("good", "p", 1, SnapshotStatus::Active, Some(true))).unwrap();
    st.save_snapshot(&snap("bad", "p", 2, SnapshotStatus::Active, Some(false))).unwrap();
    let mut m = RollbackManager::new(st);
    let start = m
        .begin_rollback_at("p", RollbackReason::SmokeTestFailure, "auto", "e1".to_string(), 50)
        .unwrap();
    assert_eq!(start.target.id, "good");
    assert_eq!(start.current.id, "bad");
    assert_eq!(start.event.from_snapshot_id, "bad");
    assert_eq!(start.event.to_snapshot_id, "good");
    m.finish_rollback_at(&start, true, 60).unwrap();
    let listed = m.list_snapshots("p").unwrap();
    assert_eq!(listed[0].id, "bad");
    assert_eq!(listed[0].status, SnapshotStatus::RolledBack);
    assert_eq!(listed[1].status, SnapshotStatus::Active);
    let h = m.get_rollback_history("p").unwrap();
    assert_eq!(h[0].rollback_success, Some(true));
    assert_eq!(h[0].rollback_completed_at, Some(60));
}

#[test]
fn failed_rollback_keeps_snapshots() {
    let mut st = RollbackStorage::new();
    st.save_snapshot(&snap("good", "p", 1, SnapshotStatus::Active, Some(true))).unwrap();
    st.save_snapshot(&snap("bad", "p", 2, SnapshotStatus::Active, None)).unwrap();
    let mut m = RollbackManager::new(st);
    let start = m.begin_rollback_at("p", RollbackReason::Manual, "cli", "e1".to_string(), 5).unwrap();
    m.finish_rollback_at(&start, false, 9).unwrap();
    assert_eq!(m.storage().get_active_snapshot("p").unwrap().unwrap().id, "bad");
    assert_eq!(m.get_rollback_history("p").unwrap()[0].rollback_success, Some(false));
}

#[test]
fn hybrid_target_has_no_strategy() {
    let mut m = RollbackManager::new(RollbackStorage::new());
    m.record_snapshot(snap("a", "p", 1, SnapshotStatus::Active, Some(true)), RollbackStrategy::Hybrid).unwrap();
    assert_eq!(
        m.begin_rollback_at("p", RollbackReason::Manual, "cli", "e1".to_string(), 5).err(),
        Some("Strategy not implemented".to_string())
    );
    assert_eq!(m.get_rollback_history("p").unwrap().len(), 1);
}
