use shipwright::image_builds::{
    archive_path, discover_services, dockerignore_patterns, is_ignored, local_image_tag, registry_image_tag,
};
use shipwright::env_validator::ComposeError;

#[test]
fn services_with_build_contexts_are_discovered_once_per_context() {
    let compose = r#"
services:
  web:
    build: ./web
  api:
    build:
      context: ./api
      dockerfile: Dockerfile.prod
    image: acme/api
  worker:
    build:
      context: ./api
      dockerfile: Dockerfile.prod
  db:
    image: postgres:16
  tool:
    build:
      dockerfile: Tool.Dockerfile
"#;
    let services = discover_services(compose).unwrap();
    let seen: Vec<(String, String, String, String)> = services
        .into_iter()
        .map(|s| (s.name, s.context, s.dockerfile, s.image_name))
        .collect();
    assert_eq!(
        seen,
        vec![
            ("web".to_string(), "./web".to_string(), "Dockerfile".to_string(), "web".to_string()),
            ("api".to_string(), "./api".to_string(), "Dockerfile.prod".to_string(), "acme/api".to_string()),
            ("tool".to_string(), ".".to_string(), "Tool.Dockerfile".to_string(), "tool".to_string()),
        ]
    );
}

#[test]
fn discovery_without_services_or_yaml() {
    assert!(discover_services("version: '3'\n").unwrap().is_empty());
    assert_eq!(discover_services("services: [").unwrap_err(), ComposeError::InvalidYaml);
}

#[test]
fn image_tags() {
    assert_eq!(local_image_tag("web"), "web:latest");
    assert_eq!(registry_image_tag("registry.io/acme", "web"), "registry.io/acme/hbec-web:latest");
}

#[test]
fn dockerignore_lines_become_patterns() {
    let p = dockerignore_patterns(Some("# comment\nnode_modules\n\n  dist/  \n*.log\n"));
    assert_eq!(p, vec!["node_modules", "dist/", "*.log"]);
    let d = dockerignore_patterns(None);
    assert_eq!(d, vec!["node_modules", ".git", "__pycache__", "*.pyc", ".env", "venv", ".venv", "target"]);
}

#[test]
fn ignore_patterns_match_names() {
    let p: Vec<String> = vec!["dist/".to_string(), "*.log".to_string(), "secret.txt".to_string(), "a.b*".to_string()];
    assert!(is_ignored("dist", &p));
    assert!(is_ignored("server.log", &p));
    assert!(!is_ignored("server.logs", &p));
    assert!(is_ignored("secret.txt", &p));
    assert!(!is_ignored("secret-txt", &p));
    assert!(is_ignored("a.bc", &p));
    assert!(!is_ignored("axbc", &p));
    assert!(!is_ignored("src", &p));
}

#[test]
fn archive_paths() {
    assert_eq!(archive_path("", "a.txt"), "a.txt");
    assert_eq!(archive_path("src/lib", "a.rs"), "src/lib/a.rs");
}
