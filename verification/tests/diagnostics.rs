use shipwright::diagnostics::{
    analyze_logs_for_suggestions, container_logs_command, container_status_command, counts_as_healthy,
    diagnose_failures, escape_shell_arg, escape_sql_password, extract_env_value, extract_exit_code,
    get_container_statuses, has_password_issue, health_summary, issue_text, needs_diagnosis, password_fix_command,
    services_to_restart, ContainerStatus, DiagnosticResult,
};

fn status(name: &str, status: &str, health: &str) -> ContainerStatus {
    ContainerStatus {
        name: name.to_string(),
        status: status.to_string(),
        health: health.to_string(),
        exit_code: extract_exit_code(status),
    }
}

#[test]
fn exit_codes_are_read_from_statuses() {
    assert_eq!(extract_exit_code("Exited (137) 2 minutes ago"), Some(137));
    assert_eq!(extract_exit_code("Up 5 minutes"), None);
    assert_eq!(extract_exit_code("Exited (99999999999) now"), None);
}

#[test]
fn ps_lines_become_statuses() {
    let out = "hbec-web|Up 2 minutes|healthy\nhbec-db|Exited (1) 3 seconds ago\nnoise\n";
    let st = get_container_statuses(out);
    assert_eq!(st.len(), 2);
    assert_eq!((st[0].name.as_str(), st[0].status.as_str(), st[0].health.as_str()), ("hbec-web", "Up 2 minutes", "healthy"));
    assert_eq!(st[1].health, "");
    assert_eq!(st[1].exit_code, Some(1));
    assert_eq!(
        container_status_command("/srv/app"),
        "cd /srv/app && docker compose ps -a --format '{{.Name}}|{{.Status}}|{{.Health}}'"
    );
}

#[test]
fn failing_containers_are_diagnosed() {
    let st = vec![
        status("hbec-web", "Up 1 minute", "healthy"),
        status("hbec-backend", "Up 1 minute", "unhealthy"),
        status("hbec-worker", "Restarting (1) 5 seconds ago", ""),
        status("hbec-job", "Exited (2) 1 minute ago", ""),
    ];
    assert!(!needs_diagnosis(&st[0]));
    assert!(counts_as_healthy(&st[0]));
    assert!(!counts_as_healthy(&st[1]));
    assert_eq!(health_summary(&st), (1, 3));
    assert_eq!(issue_text(&st[1]), "Container is unhealthy (health check failing)");
    assert_eq!(issue_text(&st[2]), "Container is in restart loop");
    assert_eq!(issue_text(&st[3]), "Container exited with code Some(2)");
    let logs = vec!["".to_string(), "ok".to_string(), "".to_string(), "".to_string()];
    let d = diagnose_failures(&st, &logs);
    assert_eq!(d.len(), 3);
    assert_eq!(d[0].container, "hbec-backend");
    assert_eq!(d[0].logs, "ok");
    assert_eq!(services_to_restart(&d), vec!["backend"]);
    assert!(!has_password_issue(&d));
    assert_eq!(container_logs_command("hbec-web", 50), "docker logs --tail 50 hbec-web 2>&1");
}

#[test]
fn suggestions_follow_the_logs() {
    let st = status("hbec-student-backend", "Up", "healthy");
    let s = analyze_logs_for_suggestions("hbec-student-backend", "FATAL: password authentication failed for user \"hbec\"", &st);
    assert_eq!(s[0], "🔑 PASSWORD MISMATCH DETECTED!");
    assert_eq!(
        s[4],
        "  docker exec -it hbec-postgres psql -U postgres -c \"ALTER USER hbec WITH PASSWORD 'YOUR_POSTGRES_PASSWORD';\""
    );
    assert_eq!(s.len(), 9);
    let s = analyze_logs_for_suggestions("hbec-api", "Connection refused to redis:6379", &status("hbec-api", "Up", ""));
    assert_eq!(s, vec!["Redis connection failed. Check that redis container is running.", "Run: docker logs hbec-redis"]);
    let s = analyze_logs_for_suggestions("hbec-web", "all good", &status("hbec-web", "Up", ""));
    assert_eq!(
        s,
        vec![
            "Check full logs: docker logs hbec-web --tail 200",
            "Try restarting: docker compose restart web",
            "Check container shell: docker exec -it <container> sh"
        ]
    );
    let d = vec![DiagnosticResult {
        container: "db".to_string(),
        issue: "x".to_string(),
        logs: "Password Authentication Failed".to_string(),
        suggestions: vec![],
    }];
    assert!(has_password_issue(&d));
}

#[test]
fn password_fixes_are_escaped() {
    assert_eq!(extract_env_value("# c\nPOSTGRES_PASSWORD = \"s3cr'et\"\nX=1\n", "POSTGRES_PASSWORD"), Some("s3cr'et".to_string()));
    assert_eq!(extract_env_value("X=1\n", "Y"), None);
    assert_eq!(escape_sql_password("it's"), "it''s");
    assert_eq!(escape_shell_arg("a\"b$c`d\\e"), "a\\\"b\\$c\\`d\\\\e");
    assert_eq!(
        password_fix_command("hbec-postgres", "hbec", "p'w"),
        "docker exec hbec-postgres psql -U hbec -c \"ALTER USER hbec WITH PASSWORD 'p''w';\""
    );
}
