use shipwright::webhooks::{
    default_performed_by, get_api_url, github_webhook_reply, health_response, pushed_branch, registration_branch,
    registration_reply, self_update_webhook_reply, verify_github_signature, Commit, GitHubPushEvent,
    ProjectRegistration, RegisteredProject, Repository, SignatureHeader,
};

// RFC 4231, test case 2.
const JEFE_TAG: &str = "5bdcc146bf60754e6a042426089575c75a003f089d2739839dec58b964ec3843";
const JEFE_BODY: &[u8] = b"what do ya want for nothing?";

fn push(reference: &str, with_commit: bool) -> GitHubPushEvent {
    GitHubPushEvent {
        reference: reference.to_string(),
        repository: Repository {
            name: "shop".to_string(),
            full_name: "acme/shop".to_string(),
            clone_url: "https://github.com/acme/shop.git".to_string(),
        },
        head_commit: if with_commit {
            Some(Commit { id: "abc".to_string(), message: "m".to_string() })
        } else {
            None
        },
    }
}

fn project() -> Option<RegisteredProject> {
    Some(RegisteredProject { id: "p".to_string(), webhook_secret: "Jefe".to_string(), deploy_branch: "main".to_string() })
}

fn signed() -> SignatureHeader {
    SignatureHeader::Present(format!("sha256={}", JEFE_TAG))
}

#[test]
fn github_signatures_are_hmac_sha256_in_lowercase_hex() {
    assert!(verify_github_signature("Jefe", &format!("sha256={}", JEFE_TAG), JEFE_BODY));
    assert!(!verify_github_signature("Jefe", &format!("sha256={}", JEFE_TAG.to_uppercase()), JEFE_BODY));
    assert!(!verify_github_signature("jefe", &format!("sha256={}", JEFE_TAG), JEFE_BODY));
    assert!(!verify_github_signature("Jefe", &format!("sha1={}", JEFE_TAG), JEFE_BODY));
    assert!(!verify_github_signature("Jefe", "sha256=", JEFE_BODY));
}

#[test]
fn push_to_deploy_branch_triggers_deployment() {
    let r = github_webhook_reply(&project(), &signed(), JEFE_BODY, &push("refs/heads/main", true));
    assert_eq!((r.status, r.message.as_str(), r.trigger), (200, "Deployment triggered", true));
    let r = github_webhook_reply(&project(), &signed(), JEFE_BODY, &push("refs/heads/main", false));
    assert_eq!((r.status, r.message.as_str(), r.trigger), (200, "No commit to deploy", false));
}

#[test]
fn push_replies_for_refused_requests() {
    let r = github_webhook_reply(&None, &signed(), JEFE_BODY, &push("refs/heads/main", true));
    assert_eq!((r.status, r.message.as_str()), (404, "Project not registered"));
    let r = github_webhook_reply(&project(), &SignatureHeader::Missing, JEFE_BODY, &push("refs/heads/main", true));
    assert_eq!((r.status, r.message.as_str()), (401, "Missing signature header"));
    let r = github_webhook_reply(&project(), &SignatureHeader::Invalid, JEFE_BODY, &push("refs/heads/main", true));
    assert_eq!((r.status, r.message.as_str()), (400, "Invalid signature header"));
    let r = github_webhook_reply(&project(), &signed(), b"tampered", &push("refs/heads/main", true));
    assert_eq!((r.status, r.message.as_str(), r.trigger), (401, "Signature verification failed", false));
    let r = github_webhook_reply(&project(), &signed(), JEFE_BODY, &push("refs/heads/dev", true));
    assert_eq!((r.status, r.message.as_str(), r.trigger), (200, "Ignoring push to branch 'dev'", false));
}

#[test]
fn branches_come_from_refs() {
    assert_eq!(pushed_branch("refs/heads/feature/x"), "feature/x");
    assert_eq!(pushed_branch("refs/tags/v1"), "refs/tags/v1");
}

#[test]
fn self_update_follows_main_only() {
    let r = self_update_webhook_reply(&push("refs/heads/main", true), true);
    assert_eq!((r.status, r.message.as_str(), r.trigger), (200, "Self-update triggered (Docker mode)", true));
    let r = self_update_webhook_reply(&push("refs/heads/main", true), false);
    assert_eq!(r.message, "Self-update triggered (systemd mode)");
    let r = self_update_webhook_reply(&push("refs/heads/dev", true), false);
    assert_eq!((r.message.as_str(), r.trigger), ("Ignoring push to branch 'dev'", false));
}

#[test]
fn registration_defaults_to_main() {
    let mut reg = ProjectRegistration {
        name: "shop".to_string(),
        repo_url: "u".to_string(),
        webhook_secret: "s".to_string(),
        deploy_branch: None,
    };
    assert_eq!(registration_branch(&reg), "main");
    reg.deploy_branch = Some("prod".to_string());
    assert_eq!(registration_branch(&reg), "prod");
    let ok = registration_reply(Ok(()));
    assert_eq!((ok.status, ok.message.as_str()), (201, "Project registered successfully"));
    let err = registration_reply(Err("locked".to_string()));
    assert_eq!((err.status, err.message.as_str()), (500, "Failed to register project: locked"));
}

#[test]
fn health_and_addresses() {
    let h = health_response("0.1.3", 42);
    assert_eq!((h.status.as_str(), h.version.as_str(), h.uptime.as_str()), ("healthy", "0.1.3", "42s"));
    assert_eq!(get_api_url("10.0.0.1"), "http://10.0.0.1:17670");
    assert_eq!(default_performed_by(), "cli");
}
