use shipwright::deployment_tracking::{DeploymentStatus, DeploymentTracker};
use shipwright::webhooks::{
    check_retry, get_deployment_status, retry_deployment, retry_deployment_with, retry_started_reply, short_sha, short_sha_defined,
    status_reply,
};

fn tracker_with(project: &str, sha: &str) -> (DeploymentTracker, String) {
    let mut t = DeploymentTracker::new();
    let a = t.create_attempt("id-1", project, sha, "/srv/app", "/srv/app/.shipwright.yml", "webhook").unwrap();
    (t, a.id)
}

#[test]
fn created_attempt_is_found_again_by_id() {
    let (t, id) = tracker_with("shop", "0123456789abcdef");
    let found = t.get_attempt(&id).unwrap().unwrap();
    assert_eq!(found.id, id);
    assert_eq!(found.project_name, "shop");
    assert_eq!(found.status, DeploymentStatus::Pending);
    assert_eq!(found.retry_count, 0);
    assert_eq!(found.triggered_by, "webhook");
    assert!(found.completed_at.is_none());
    assert!(t.get_attempt("no-such-id").unwrap().is_none());
}

#[test]
fn status_updates_and_completion_change_only_that_attempt() {
    let (mut t, id) = tracker_with("shop", "0123456789abcdef");
    t.update_status(&id, DeploymentStatus::Running).unwrap();
    assert_eq!(t.get_attempt(&id).unwrap().unwrap().status, DeploymentStatus::Running);
    t.complete_attempt(&id, DeploymentStatus::Failed, Some("boom".to_string()), Some("trace".to_string())).unwrap();
    let a = t.get_attempt(&id).unwrap().unwrap();
    assert_eq!(a.status, DeploymentStatus::Failed);
    assert_eq!(a.failure_reason.as_deref(), Some("boom"));
    assert_eq!(a.failure_details.as_deref(), Some("trace"));
    assert!(a.completed_at.is_some());
    // An unknown id changes nothing.
    t.update_status("other", DeploymentStatus::Success).unwrap();
    assert_eq!(t.get_attempt(&id).unwrap().unwrap().status, DeploymentStatus::Failed);
}

#[test]
fn latest_attempt_is_per_project() {
    let mut t = DeploymentTracker::new();
    let a = t.create_attempt("p1", "alpha", "aaaaaaaa11", "/d", "/c", "cli").unwrap();
    let _b = t.create_attempt("p2", "beta", "bbbbbbbb22", "/d", "/c", "cli").unwrap();
    let latest = t.get_latest_attempt("p1").unwrap().unwrap();
    assert_eq!(latest.id, a.id);
    let by_name = t.get_latest_attempt_by_name("beta").unwrap().unwrap();
    assert_eq!(by_name.project_id, "p2");
    assert!(t.get_latest_attempt("p3").unwrap().is_none());
    assert!(t.get_latest_attempt_by_name("gamma").unwrap().is_none());
}

#[test]
fn retry_counts_one_more_and_points_back() {
    let (mut t, id) = tracker_with("shop", "0123456789abcdef");
    let r = t.create_retry_attempt(&id).unwrap();
    assert_eq!(r.retry_count, 1);
    assert_eq!(r.original_attempt_id.as_deref(), Some(id.as_str()));
    assert_eq!(r.triggered_by, "retry");
    assert_eq!(r.commit_sha, "0123456789abcdef");
    assert_eq!(r.status, DeploymentStatus::Pending);
    let rr = t.create_retry_attempt(&r.id).unwrap();
    assert_eq!(rr.retry_count, 2);
    assert_eq!(t.create_retry_attempt("missing").unwrap_err(), "Original deployment attempt not found");
}

#[test]
fn retry_endpoint_only_retries_failed_deployments() {
    let (mut t, id) = tracker_with("shop", "0123456789abcdef");
    let (status, resp) = retry_deployment(&mut t, "shop").unwrap_err();
    assert_eq!(status, 400);
    assert_eq!(resp.message, "Last deployment did not fail (status: Pending). Nothing to retry.");
    assert!(!resp.success);

    let (status, resp) = retry_deployment(&mut t, "unknown").unwrap_err();
    assert_eq!(status, 404);
    assert_eq!(resp.message, "No deployment found for this project");

    t.complete_attempt(&id, DeploymentStatus::Failed, None, None).unwrap();
    let attempt = retry_deployment(&mut t, "shop").unwrap();
    assert_eq!(attempt.retry_count, 1);
    let (status, resp) = retry_started_reply(Ok(attempt));
    assert_eq!(status, 200);
    assert!(resp.success);
    assert_eq!(resp.message, "Retry deployment started (attempt #1, commit: 01234567)");
}

#[test]
fn retry_replies_for_errors() {
    let (status, resp) = check_retry(Err("disk I/O error".to_string())).unwrap_err();
    assert_eq!(status, 500);
    assert_eq!(resp.message, "Failed to retrieve deployment history: disk I/O error");
    let (status, resp) = retry_started_reply(Err("taken".to_string()));
    assert_eq!(status, 500);
    assert_eq!(resp.message, "Failed to create retry attempt: taken");
    assert!(resp.attempt_id.is_none());
}

#[test]
fn status_endpoint_reports_latest_attempt() {
    let (t, id) = tracker_with("shop", "0123456789abcdef");
    let (status, resp) = get_deployment_status(&t, "shop");
    assert_eq!(status, 200);
    let d = resp.deployment.unwrap();
    assert_eq!(d.id, id);
    assert_eq!(d.status, "pending");
    let (status, resp) = get_deployment_status(&t, "nope");
    assert_eq!(status, 404);
    assert!(resp.deployment.is_none());
    let (status, _) = status_reply(Err("x".to_string()));
    assert_eq!(status, 500);
}

#[test]
fn short_commit_hash_is_eight_bytes() {
    assert_eq!(short_sha("0123456789abcdef"), "01234567");
    assert!(short_sha_defined("01234567"));
    assert!(!short_sha_defined("0123456"));
    // "é" takes two bytes: 8 bytes end inside no character here.
    assert!(!short_sha_defined("abcdeféxyz") || short_sha("abcdeféxyz").len() == 8);
    assert!(short_sha_defined("abcéfgh"));
    assert_eq!(short_sha("abcéfghij"), "abcéfgh");
    assert!(!short_sha_defined("abcdefgé"));
}

#[test]
fn status_names_round_trip() {
    for s in [DeploymentStatus::Pending, DeploymentStatus::Running, DeploymentStatus::Success, DeploymentStatus::Failed] {
        assert_eq!(DeploymentStatus::from_string(s.to_string()), s);
    }
    assert_eq!(DeploymentStatus::from_string("weird"), DeploymentStatus::Failed);
}

#[test]
fn attempt_with_given_id_is_refused_when_the_id_is_taken() {
    let mut t = DeploymentTracker::new();
    let a = t
        .create_attempt_with("a-1".to_string(), "id-1", "shop", "0123456789abcdef", "/srv/app", "cfg", "webhook", 100)
        .unwrap();
    assert_eq!(a.id, "a-1");
    assert_eq!(a.started_at, 100);
    let again = t.create_attempt_with("a-1".to_string(), "id-1", "shop", "fedcba9876543210", "/srv", "cfg", "cli", 200);
    assert_eq!(again.unwrap_err(), "Failed to create deployment attempt");
    assert_eq!(t.attempts().len(), 1);
}

#[test]
fn retry_with_given_id_is_recorded_or_refused() {
    let mut t = DeploymentTracker::new();
    t.create_attempt_with("a-1".to_string(), "id-1", "shop", "0123456789abcdef", "/srv/app", "cfg", "webhook", 100)
        .unwrap();
    assert_eq!(
        t.create_retry_attempt_with("missing", "r-1".to_string(), 150).unwrap_err(),
        "Original deployment attempt not found"
    );
    assert_eq!(
        t.create_retry_attempt_with("a-1", "a-1".to_string(), 150).unwrap_err(),
        "Failed to create retry attempt"
    );
    t.complete_attempt("a-1", DeploymentStatus::Failed, Some("boom".to_string()), None).unwrap();
    let (code, resp) = retry_deployment_with(&mut t, "shop", "a-1".to_string(), 160).unwrap_err();
    assert_eq!(code, 500);
    assert_eq!(resp.message, "Failed to create retry attempt: Failed to create retry attempt");
    let r = retry_deployment_with(&mut t, "shop", "r-1".to_string(), 170).unwrap();
    assert_eq!(r.id, "r-1");
    assert_eq!(r.started_at, 170);
    assert_eq!(r.retry_count, 1);
    assert_eq!(r.triggered_by, "retry");
    assert_eq!(r.original_attempt_id.as_deref(), Some("a-1"));
    assert_eq!(r.status, DeploymentStatus::Pending);
    assert_eq!(t.attempts().len(), 2);
}
