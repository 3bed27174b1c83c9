use shipwright::caddy::{
    caddy_setup_commands, check_domain_conflicts, check_reports_missing, configured_domains, detect_exposed_services,
    ensure_caddy_network, find_service_config, generate_caddyfile, has_site_config, needs_domain,
    parse_container_port, port_from_run, remove_caddy_config, service_config_for_choice, wildcard_domain,
    DetectedService,
};
use shipwright::config::ServiceConfig;

#[test]
fn container_ports_of_mappings() {
    assert_eq!(parse_container_port("8080:80"), Some(80));
    assert_eq!(parse_container_port("3000"), Some(3000));
    assert_eq!(parse_container_port("127.0.0.1:8080:443"), Some(443));
    assert_eq!(parse_container_port("${PORT}:5173"), Some(5173));
    assert_eq!(parse_container_port("abc"), None);
    assert_eq!(parse_container_port("99999"), None);
    assert_eq!(port_from_run(Some("8000".to_string())), Some(8000));
    assert_eq!(port_from_run(None), None);
}

#[test]
fn exposed_services_are_detected() {
    let compose = "version: '3'\nservices:\n  frontend:\n    image: web\n    container_name: shop-web\n    ports:\n      - \"8080:80\"\n  api:\n    image: api\n    expose:\n      - 8000\n  db:\n    image: postgres\n";
    let found = detect_exposed_services(compose);
    assert_eq!(found.len(), 2);
    assert_eq!(found[0].name, "frontend");
    assert_eq!(found[0].container_name.as_deref(), Some("shop-web"));
    assert_eq!(found[0].ports, vec![80]);
    assert!(found[0].is_frontend);
    assert_eq!(found[1].name, "api");
    assert_eq!(found[1].ports, vec![8000]);
    assert!(!found[1].is_frontend);
    assert!(needs_domain(&found[1]));
}

fn svc(name: &str, domain: Option<&str>, port: u16, path: Option<&str>, expose: bool) -> ServiceConfig {
    ServiceConfig {
        name: name.to_string(),
        domain: domain.map(|d| d.to_string()),
        port,
        path: path.map(|p| p.to_string()),
        expose,
    }
}

#[test]
fn site_file_has_one_block_per_exposed_domain() {
    let services = vec![
        svc("web", Some("shop.io"), 80, None, true),
        svc("api", Some("shop.io"), 8000, Some("/api/*"), true),
        svc("db", None, 5432, None, true),
        svc("admin", Some("admin.io"), 80, None, false),
    ];
    let file = generate_caddyfile("shop", &services, "shop");
    assert_eq!(
        file,
        "# Managed by Shipwright - Project: shop\n# Do not edit manually - changes will be overwritten\n\nshop.io {\n    reverse_proxy shop-web:80\n}\n\nshop.io {\n    handle /api/* {\n        reverse_proxy shop-api:8000\n    }\n}\n\n"
    );
    assert!(has_site_config(&file));
    assert!(!has_site_config(&generate_caddyfile("shop", &vec![], "shop")));
    // Every line that opens a block is listed, the `handle` line too.
    assert_eq!(configured_domains(&file), vec!["shop.io", "shop.io", "handle /api/*"]);
}

#[test]
fn domains_of_other_projects_conflict() {
    let listing = "=== /etc/caddy/sites/blog.caddy ===\nblog.io {\n    reverse_proxy blog:80\n}\n=== /etc/caddy/sites/shop.caddy ===\nshop.io {\n";
    let mine = vec![svc("web", Some("blog.io"), 80, None, true), svc("x", Some("shop.io"), 80, None, true)];
    // Only the `=== ... ===` line names the project's own file, so its
    // domain lines are compared too.
    assert_eq!(
        check_domain_conflicts(listing, &mine, "shop"),
        vec![
            "Domain 'blog.io' is already configured for another project",
            "Domain 'shop.io' is already configured for another project"
        ]
    );
    assert!(check_domain_conflicts("", &mine, "shop").is_empty());
}

#[test]
fn domain_choices() {
    let s = DetectedService { name: "my-web".to_string(), container_name: None, ports: vec![3000], is_frontend: true };
    assert_eq!(wildcard_domain("my-web", "1.2.3.4"), "myweb.1.2.3.4.nip.io");
    let c = service_config_for_choice(&s, 1, None, "1.2.3.4");
    assert_eq!((c.domain.as_deref(), c.port, c.expose), (Some("myweb.1.2.3.4.nip.io"), 3000, true));
    let c = service_config_for_choice(&s, 0, Some("shop.io".to_string()), "h");
    assert_eq!((c.domain.as_deref(), c.expose), (Some("shop.io"), true));
    let c = service_config_for_choice(&s, 2, None, "h");
    assert_eq!((c.domain, c.expose), (None, false));
    let configs = vec![svc("a", None, 1, None, false), svc("b", None, 1, None, false)];
    assert_eq!(find_service_config(&configs, "b"), Some(1));
    assert_eq!(find_service_config(&configs, "c"), None);
}

#[test]
fn caddy_commands() {
    assert_eq!(ensure_caddy_network(), "docker network create caddy-proxy 2>/dev/null || true");
    assert_eq!(remove_caddy_config("shop"), vec!["rm -f /etc/caddy/sites/shop.caddy", "systemctl reload caddy"]);
    assert!(check_reports_missing(Some(" missing\n")));
    assert!(!check_reports_missing(Some("installed")));
    assert!(check_reports_missing(None));
    assert_eq!(caddy_setup_commands(false, false).len(), 2);
    assert_eq!(caddy_setup_commands(true, true).len(), 8);
}
