use shipwright::cli_project::{
    agent_service_commands, cpu_flags_command, deploy_branch_of, docker_install_commands, firewall_commands,
    github_webhook_url, gitignore_with_credentials, hook_already_exists, hooks_route, init_config,
    is_private_key_name, logs_command, normalize_project_name, parse_github_repo, projects_url, registry_url_for,
    retry_refusal, ssh_key_path, InitAnswers, RetryRefusal,
};

fn answers() -> InitAnswers {
    InitAnswers {
        project_name: "shop".to_string(),
        registry_url: "ghcr.io/ann".to_string(),
        registry_user: "ann".to_string(),
        vps_host: "1.2.3.4".to_string(),
        vps_user: "root".to_string(),
        vps_key: "~/.ssh/id_ed25519".to_string(),
        domain: "shop.io".to_string(),
    }
}

#[test]
fn init_names_and_paths() {
    assert_eq!(normalize_project_name("My Shop App"), "my-shop-app");
    assert_eq!(registry_url_for(0, "ann", ""), "ghcr.io/ann");
    assert_eq!(registry_url_for(1, "ann", ""), "docker.io/ann");
    assert_eq!(registry_url_for(2, "ann", "reg.example.com"), "reg.example.com");
    assert!(is_private_key_name("id_rsa"));
    assert!(!is_private_key_name("id_rsa.pub"));
    assert!(!is_private_key_name("known_hosts"));
    assert_eq!(ssh_key_path("id_rsa"), "~/.ssh/id_rsa");
    assert_eq!(
        gitignore_with_credentials("target/\n"),
        Some("target/\n\n# Shipwright credentials\n.shipwright/\n".to_string())
    );
    assert_eq!(gitignore_with_credentials(".shipwright/\n"), None);
}

#[test]
fn init_config_for_compose_project() {
    let text = init_config(&answers(), true, true);
    assert!(text.starts_with("version: 1\n\nproject:\n  name: shop\n  framework: auto\n\nbuild:\n  image: auto-detected\n"));
    assert!(text.contains("\n\ndeploy:\n  type: docker-compose\n  registry:\n    url: ghcr.io/ann\n"));
    assert!(text.contains("    ssh_key: ~/.ssh/id_ed25519\n    domain: shop.io\n  replicas: 1\n  \n  health:\n"));
    assert!(text.ends_with("      timeout: 30s\n"));
    let plain = init_config(&answers(), false, false);
    assert!(plain.contains("    - echo \"Building...\"\n\ndeploy:\n  type: docker\n"));
}

#[test]
fn github_remote_parsing() {
    assert_eq!(
        parse_github_repo("https://github.com/ann/shop.git\n"),
        Ok(("ann".to_string(), "shop".to_string()))
    );
    assert_eq!(parse_github_repo("git@github.com:ann/shop"), Ok(("ann".to_string(), "shop".to_string())));
    assert!(parse_github_repo("https://gitlab.com/ann/shop.git").is_err());
    assert_eq!(deploy_branch_of("feature/x\n"), "feature/x");
    assert_eq!(deploy_branch_of("\n"), "main");
    assert_eq!(projects_url("1.2.3.4"), "http://1.2.3.4:17670/projects");
    assert_eq!(github_webhook_url("1.2.3.4"), "http://1.2.3.4:17670/webhooks/github");
    assert_eq!(hooks_route("ann", "shop"), "/repos/ann/shop/hooks");
    assert!(hook_already_exists("Validation Failed: Hook already exists on this repository"));
}

#[test]
fn retry_refusals() {
    assert_eq!(retry_refusal(404, "", "404 Not Found"), RetryRefusal::NoHistory);
    assert_eq!(retry_refusal(400, "", "400 Bad Request"), RetryRefusal::NothingToRetry);
    assert_eq!(
        retry_refusal(500, "boom", "500 Internal Server Error"),
        RetryRefusal::ApiError("API error (500 Internal Server Error): boom".to_string())
    );
}

#[test]
fn setup_commands() {
    assert_eq!(docker_install_commands().len(), 3);
    assert_eq!(firewall_commands()[4], "sudo ufw --force enable");
    let svc = agent_service_commands();
    assert!(svc[2].starts_with("echo '[Unit]\nDescription=Shipwright Agent Daemon\n"));
    assert_eq!(svc[7], "sudo mkdir -p /etc/shipwright");
    assert_eq!(
        cpu_flags_command(" fpu vme sse\n"),
        "echo 'SHIPWRIGHT_CPU_FLAGS=fpu,vme,sse' | sudo tee /etc/shipwright/hardware.env"
    );
    assert_eq!(logs_command("shop"), "docker logs -f shop");
}
