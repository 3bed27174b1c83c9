use shipwright::env_validator::{
    env_get, extract_env_vars_from_compose, read_env_file, validate_env_vars, ComposeError, IssueType,
};

fn has_var(vars: &[(String, Vec<String>)], name: &str) -> bool {
    vars.iter().any(|(n, _)| n == name)
}

#[test]
fn test_extract_env_vars() {
    let compose_content = r#"
version: '3.8'
services:
  app:
    image: ghcr.io/${GITHUB_REPO}/app:latest
    environment:
      - DATABASE_URL=${DATABASE_URL}
      - SECRET_KEY=$SECRET_KEY
"#;
    let vars = extract_env_vars_from_compose(compose_content).unwrap();
    assert!(has_var(&vars, "GITHUB_REPO"));
    assert!(has_var(&vars, "DATABASE_URL"));
    assert!(has_var(&vars, "SECRET_KEY"));
}

#[test]
fn test_read_env_file() {
    let env_content = r#"
# Comment
DATABASE_URL=postgres://localhost/db
SECRET_KEY="my-secret"
EMPTY_VAR=
"#;
    let env_vars = read_env_file(env_content);
    assert_eq!(env_get(&env_vars, "DATABASE_URL"), Some(&"postgres://localhost/db".to_string()));
    assert_eq!(env_get(&env_vars, "SECRET_KEY"), Some(&"my-secret".to_string()));
    assert_eq!(env_get(&env_vars, "EMPTY_VAR"), Some(&"".to_string()));
}

#[test]
fn variables_are_attributed_to_their_services() {
    let compose = "services:\n  web:\n    image: app:${TAG}\n  db:\n    environment:\n      - PASSWORD=${DB_PASSWORD}\n";
    let vars = extract_env_vars_from_compose(compose).unwrap();
    let tag = vars.iter().find(|(n, _)| n == "TAG").unwrap();
    assert_eq!(tag.1, vec!["web".to_string()]);
    let pw = vars.iter().find(|(n, _)| n == "DB_PASSWORD").unwrap();
    assert_eq!(pw.1, vec!["db".to_string()]);
}

#[test]
fn compose_errors_are_reported() {
    assert_eq!(extract_env_vars_from_compose("services: [unclosed").unwrap_err(), ComposeError::InvalidYaml);
    assert_eq!(extract_env_vars_from_compose("version: '3'\n").unwrap_err(), ComposeError::NoServices);
    assert_eq!(ComposeError::NoServices.message(), "No services found in docker-compose file");
}

#[test]
fn validation_reports_missing_and_empty_variables() {
    let required = vec![
        ("A".to_string(), vec!["web".to_string()]),
        ("B".to_string(), vec!["web".to_string(), "db".to_string()]),
        ("C".to_string(), vec![]),
    ];
    let env = read_env_file("A=1\nB=\n");
    let report = validate_env_vars(&required, &env, "/srv/app/.env".to_string());
    assert!(!report.is_valid());
    assert_eq!(report.total_vars_checked, 3);
    assert_eq!(report.issues.len(), 2);
    assert_eq!(report.issues[0].var_name, "B");
    assert_eq!(report.issues[0].issue_type, IssueType::Empty);
    assert_eq!(report.issues[1].var_name, "C");
    assert_eq!(report.issues[1].issue_type, IssueType::Missing);
    let msg = report.error_message();
    assert!(msg.starts_with("❌ Environment variable validation failed:\n\n  • B is empty\n    Required by: web, db\n  • C is not set\n"));
    assert!(msg.contains("\n📝 Please update your .env file at: /srv/app/.env\n"));
}

#[test]
fn valid_report_has_no_message() {
    let required = vec![("A".to_string(), vec!["web".to_string()])];
    let env = read_env_file("A=1\n");
    let report = validate_env_vars(&required, &env, ".env".to_string());
    assert!(report.is_valid());
    assert_eq!(report.error_message(), "");
}
