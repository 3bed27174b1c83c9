use shipwright::adapters::{create_adapter, CaddyAdapter, NginxAdapter, ProxyAdapter, RouteConfig, TraefikAdapter};

fn route(path: Option<&str>, cors: bool, tls: bool) -> RouteConfig {
    RouteConfig {
        domain: "app.example.com".to_string(),
        service_name: "web".to_string(),
        port: 8000,
        path: path.map(|p| p.to_string()),
        enable_cors: cors,
        enable_tls: tls,
    }
}

#[test]
fn caddy_block_plain() {
    let a = CaddyAdapter::new("caddy".to_string());
    assert_eq!(a.config_path, "/etc/caddy/Caddyfile");
    assert_eq!(
        a.generate_caddy_block(&route(None, false, true)),
        "\n# --- web (Shipwright) ---\napp.example.com {\n    import security\n    reverse_proxy web:8000\n}\n"
    );
}

#[test]
fn caddy_block_with_path_and_cors() {
    let a = CaddyAdapter::new("caddy".to_string());
    assert_eq!(
        a.generate_caddy_block(&route(Some("/api"), true, true)),
        "\n# --- web (Shipwright) ---\napp.example.com {\n    import security\n    import cors_handle\n    handle /api/* {\n        reverse_proxy web:8000\n    }\n}\n"
    );
}

#[test]
fn caddy_route_added_once_then_removed() {
    let a = CaddyAdapter::new("caddy".to_string());
    let base = "example.org {\n    respond 200\n}";
    let with = a.with_route(base, &route(None, false, true)).expect("route added");
    assert!(with.starts_with(base));
    assert!(a.with_route(&with, &route(None, false, true)).is_none());
    assert_eq!(a.without_routes(&with), "example.org {\n    respond 200\n}");
}

#[test]
fn caddy_removal_keeps_unmanaged_lines() {
    let a = CaddyAdapter::new("caddy".to_string());
    let file = "a {\n}\n# --- x (Shipwright) ---\nx.com {\n    reverse_proxy x:1\n}\nb {\n}";
    assert_eq!(a.without_routes(file), "a {\n}\nb {\n}");
}

#[test]
fn nginx_block() {
    let a = NginxAdapter::new("nginx".to_string());
    assert_eq!(a.config_dir, "/etc/nginx/conf.d");
    let b = a.generate_nginx_block(&route(Some("/api"), false, false));
    assert!(b.starts_with("# web (Shipwright)\nserver {\n    listen 80;\n    server_name app.example.com;\n\n    location /api/* {\n"));
    assert!(b.contains("        proxy_pass http://web:8000;\n"));
    assert!(b.ends_with("    }\n}\n"));
    assert_eq!(a.config_file_name(&route(None, false, false)), "web.conf");
}

#[test]
fn traefik_labels() {
    let a = TraefikAdapter::new("traefik".to_string());
    let l = a.route_labels(&route(None, false, true));
    assert_eq!(l.len(), 5);
    assert_eq!(l[1], "  - \"traefik.http.routers.web.rule=Host(`app.example.com`)\"");
    assert_eq!(l[2], "  - \"traefik.http.services.web.loadbalancer.server.port=8000\"");
    assert_eq!(a.route_labels(&route(None, false, false)).len(), 3);
}

#[test]
fn adapter_selection() {
    assert!(matches!(create_adapter("nginx", "n".to_string()), ProxyAdapter::Nginx(_)));
    assert!(matches!(create_adapter("traefik", "t".to_string()), ProxyAdapter::Traefik(_)));
    assert!(matches!(create_adapter("caddy", "c".to_string()), ProxyAdapter::Caddy(_)));
    assert!(matches!(create_adapter("haproxy", "h".to_string()), ProxyAdapter::Caddy(_)));
}
