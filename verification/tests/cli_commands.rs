use shipwright::cli_deploy::{
    deploy_compose_candidates, first_present, health_step, parse_smoke_test, probe_url, HealthVerdict, ProbeResult,
};
use shipwright::cli_status::{deployment_lines, no_deployment_lines, relative_time, status_display};
use shipwright::updates::{
    agent_update_commands, agent_upload_target, asset_name, find_asset, release_version, update_available,
    update_check_due, update_notice, Binary,
};
use shipwright::webhook_proxy::{
    caddy_webhook_config, detect_webhook_proxy, nginx_webhook_config, webhook_config_path, webhook_url,
    write_config_command, WebhookProxy,
};
use shipwright::infrastructure::ContainerSummary;
use shipwright::webhooks::DeploymentStatusInfo;

#[test]
fn smoke_lines_are_parsed() {
    let t = parse_smoke_test("GET /health expect=204").unwrap().unwrap();
    assert_eq!((t.method.as_str(), t.path.as_str(), t.expected_status), ("GET", "/health", 204));
    assert!(t.passes(204));
    assert!(!t.passes(200));
    let t = parse_smoke_test("  POST   /api  ").unwrap().unwrap();
    assert_eq!(t.expected_status, 200);
    let t = parse_smoke_test("GET / expect=201 expect=202").unwrap().unwrap();
    assert_eq!(t.expected_status, 202);
    assert!(parse_smoke_test("GET").unwrap().is_none());
    assert!(parse_smoke_test("").unwrap().is_none());
    assert_eq!(parse_smoke_test("GET / expect=abc").err().unwrap(), "invalid digit found in string");
    assert_eq!(parse_smoke_test("GET / expect=").err().unwrap(), "cannot parse integer from empty string");
    assert_eq!(parse_smoke_test("GET / expect=70000").err().unwrap(), "number too large to fit in target type");
    assert_eq!(parse_smoke_test("GET / other=1").unwrap().unwrap().expected_status, 200);
}

#[test]
fn health_probes_retry_up_to_five_times() {
    assert_eq!(health_step(1, ProbeResult::Status(200), 200), HealthVerdict::Healthy);
    assert_eq!(health_step(1, ProbeResult::Status(500), 200), HealthVerdict::Retry);
    assert_eq!(health_step(4, ProbeResult::Unreachable, 200), HealthVerdict::Retry);
    assert_eq!(health_step(5, ProbeResult::Unreachable, 200), HealthVerdict::Unhealthy);
    assert_eq!(health_step(5, ProbeResult::Status(200), 200), HealthVerdict::Healthy);
    assert_eq!(probe_url("1.2.3.4", "/health"), "http://1.2.3.4/health");
}

#[test]
fn compose_candidates_and_first_present() {
    let c = deploy_compose_candidates();
    assert_eq!(c[0], "docker-compose.production.yml");
    assert_eq!(c.len(), 6);
    assert_eq!(first_present(&vec![false, true, true]), Some(1));
    assert_eq!(first_present(&vec![false, false]), None);
}

#[test]
fn relative_times() {
    assert_eq!(relative_time(1000, 1030), "30 seconds ago");
    assert_eq!(relative_time(1000, 1000 + 125), "2 minutes ago");
    assert_eq!(relative_time(0, 7200), "2 hours ago");
    assert_eq!(relative_time(0, 3 * 86400 + 5), "3 days ago");
    assert_eq!(relative_time(100, 40), "-60 seconds ago");
}

#[test]
fn status_badges() {
    assert_eq!(status_display("success"), ("✅", "SUCCESS"));
    assert_eq!(status_display("failed"), ("❌", "FAILED"));
    assert_eq!(status_display("running"), ("🔄", "RUNNING"));
    assert_eq!(status_display("pending"), ("⏳", "PENDING"));
    assert_eq!(status_display("odd"), ("❓", "UNKNOWN"));
}

#[test]
fn deployment_report_lines() {
    let d = DeploymentStatusInfo {
        id: "i".to_string(),
        project_name: "shop".to_string(),
        commit_sha: "0123456789abcdef".to_string(),
        status: "failed".to_string(),
        started_at: 1000,
        completed_at: Some(1090),
        failure_reason: Some("no DB".to_string()),
        retry_count: 2,
    };
    let lines = deployment_lines(&d, 1100);
    assert_eq!(lines[0], "Status:        ❌ FAILED");
    assert_eq!(lines[1], "Project:       shop");
    assert_eq!(lines[2], "Commit:        01234567");
    assert_eq!(lines[3], "Started:       1 minutes ago");
    assert_eq!(lines[4], "Completed:     10 seconds ago");
    assert_eq!(lines[5], "Duration:      90s");
    assert_eq!(lines[6], "Retry Count:   2");
    assert_eq!(lines[7], "");
    assert_eq!(lines[8], "❌ Failure Reason:");
    assert_eq!(lines[9], "   no DB");
    assert_eq!(lines[14], "═══════════════════════════════════════════════════════");
    assert_eq!(lines[16], "💡 Next Steps:");
    assert_eq!(lines.len(), 20);
    assert_eq!(no_deployment_lines()[0], "Status:        ❓ NO DEPLOYMENT HISTORY");
}

#[test]
fn releases_and_assets() {
    assert_eq!(release_version("v1.2.3"), "1.2.3");
    assert_eq!(release_version("vv2"), "2");
    assert!(!update_available("v0.1.3", "0.1.3"));
    assert!(update_available("v0.2.0", "0.1.3"));
    assert_eq!(asset_name(Binary::Agent, "linux", "x86_64").unwrap(), "shipwright-agent-linux-x86_64");
    assert_eq!(asset_name(Binary::Cli, "windows", "x86_64").unwrap(), "shipwright-windows-x86_64.exe");
    assert_eq!(asset_name(Binary::Cli, "macos", "aarch64").unwrap(), "shipwright-macos-aarch64");
    assert_eq!(asset_name(Binary::Agent, "linux", "arm").unwrap_err(), "Unsupported platform: linux-arm");
    let names = vec!["a".to_string(), "b".to_string()];
    assert_eq!(find_asset(&names, "b"), Ok(1));
    assert_eq!(find_asset(&names, "c").unwrap_err(), "Could not find asset 'c' in the latest release");
    assert!(update_check_due(None));
    assert!(update_check_due(Some(86400)));
    assert!(!update_check_due(Some(86399)));
    assert_eq!(update_notice("0.2.0", "0.1.3"), "✨ A new version of Shipwright is available: v0.2.0 (current: v0.1.3)");
    assert_eq!(agent_upload_target("root", "h"), "root@h:/tmp/shipwright-agent");
    let cmds = agent_update_commands();
    assert_eq!(cmds.len(), 6);
    assert_eq!(cmds[0], "sudo systemctl stop shipwright-agent");
    assert_eq!(cmds[5], "sudo systemctl is-active shipwright-agent");
}

fn container(name: Option<&str>, image: Option<&str>) -> ContainerSummary {
    ContainerSummary {
        first_name: name.map(|n| n.to_string()),
        image: image.map(|i| i.to_string()),
        networks: vec![],
        ports: vec![],
    }
}

#[test]
fn webhook_proxy_prefers_caddy() {
    let cs = vec![
        container(Some("/web"), Some("nginx:latest")),
        container(None, Some("caddy:2")),
        container(Some("/edge"), Some("caddy:2")),
    ];
    match detect_webhook_proxy(&cs) {
        WebhookProxy::Caddy(n) => assert_eq!(n, "edge"),
        other => panic!("{:?}", other),
    }
    match detect_webhook_proxy(&vec![container(Some("/web"), Some("nginx:latest"))]) {
        WebhookProxy::Nginx(n) => assert_eq!(n, "web"),
        other => panic!("{:?}", other),
    }
    assert!(matches!(detect_webhook_proxy(&vec![container(Some("/db"), Some("postgres"))]), WebhookProxy::NoProxy));
}

#[test]
fn webhook_proxy_configuration_texts() {
    let c = caddy_webhook_config("hooks.example.com");
    assert!(c.starts_with("\n# Shipwright webhook routing (auto-generated)\nhooks.example.com {\n"));
    assert!(c.contains("reverse_proxy shipwright-agent:8084"));
    let n = nginx_webhook_config("hooks.example.com");
    assert!(n.contains("    server_name hooks.example.com;\n"));
    assert_eq!(write_config_command("/p", "x"), "cat > /p << 'EOF'\nx\nEOF");
    assert_eq!(webhook_config_path(&WebhookProxy::Nginx("n".to_string())), Some("/etc/nginx/conf.d/shipwright-webhooks.conf"));
    assert_eq!(webhook_config_path(&WebhookProxy::NoProxy), None);
    assert_eq!(webhook_url("h.io"), "https://h.io/shipwright/webhooks/github");
}
