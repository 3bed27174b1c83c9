use shipwright::caddy::DetectedService;
use shipwright::cli_deploy::{apply_env_overrides, deploy_plan, DeployStep};
use shipwright::compose_deploy::{
    compose_dirs_command, compose_not_found_message, compose_restart_command, remote_env_command, compose_ps_command, compose_pull_command, compose_start_command,
    critical_file_followups, deploy_image_plan, docker_build_args, docker_registry, domain_plan, images_to_build,
    recovery_plan, remote_destination, remote_path, service_configs_hint, verify_containers, volume_local_paths,
    volume_uploads, ContainersVerdict, DomainPlan, ImagePlan, Recovery, VolumeUpload,
};
use shipwright::config::{
    BuildConfig, Config, DeployConfig, HealthConfig, ProjectConfig, RegistryConfig, ServiceConfig, VpsConfig,
};
use shipwright::diagnostics::DiagnosticResult;
use shipwright::vps_deploy::CustomImage;

fn config(deploy_type: &str, registry: Option<&str>, vps: Option<(&str, Option<&str>)>) -> Config {
    Config {
        version: 1,
        project: ProjectConfig { name: "shop".to_string(), framework: None },
        build: BuildConfig { image: None, cache: None, steps: vec![], compose_file: None, services: None, environment: None },
        deploy: DeployConfig {
            deploy_type: deploy_type.to_string(),
            registry: registry.map(|u| RegistryConfig { url: u.to_string(), auth: None }),
            vps: vps.map(|(h, d)| VpsConfig {
                host: h.to_string(),
                user: "deploy".to_string(),
                ssh_key: "~/.ssh/id".to_string(),
                domain: d.map(|x| x.to_string()),
                services: vec![],
                acme_email: None,
            }),
            replicas: 1,
            health: None,
            resources: None,
            smoke_tests: None,
        },
        infrastructure: None,
        notifications: None,
        smoke_tests: None,
    }
}

#[test]
fn environment_overrides_host_and_registry() {
    let c = apply_env_overrides(
        config("docker", Some("old.io"), Some(("1.1.1.1", None))),
        Some("2.2.2.2".to_string()),
        Some("new.io".to_string()),
    );
    assert_eq!(c.deploy.vps.unwrap().host, "2.2.2.2");
    assert_eq!(c.deploy.registry.unwrap().url, "new.io");
    let c = apply_env_overrides(config("docker", None, None), Some("2.2.2.2".to_string()), Some("new.io".to_string()));
    assert!(c.deploy.vps.is_none());
    assert!(c.deploy.registry.is_none());
}

#[test]
fn deployment_steps() {
    let mut c = config("docker-compose", None, Some(("h", None)));
    c.deploy.health = Some(HealthConfig { http: None, dependencies: None });
    assert_eq!(
        deploy_plan(&c, Some("compose.yml".to_string()), 2),
        vec![DeployStep::BuildServices("compose.yml".to_string()), DeployStep::Deploy, DeployStep::CheckHealth]
    );
    assert_eq!(deploy_plan(&c, Some("compose.yml".to_string()), 0), vec![DeployStep::Deploy, DeployStep::CheckHealth]);
    let mut d = config("docker", None, None);
    d.deploy.smoke_tests = Some(vec!["GET /".to_string()]);
    assert_eq!(deploy_plan(&d, None, 0), vec![DeployStep::BuildImage, DeployStep::Deploy]);
    d.deploy.vps = config("docker", None, Some(("h", None))).deploy.vps;
    assert_eq!(deploy_plan(&d, None, 0), vec![DeployStep::BuildImage, DeployStep::Deploy, DeployStep::RunSmokeTests]);
}

#[test]
fn image_plans() {
    match deploy_image_plan(&config("docker-compose", None, Some(("h", Some("shop.io"))))).unwrap() {
        ImagePlan::Compose { caddy_domain } => assert_eq!(caddy_domain.as_deref(), Some("shop.io")),
        other => panic!("{:?}", other),
    }
    match deploy_image_plan(&config("docker-compose", None, Some(("h", Some(""))))).unwrap() {
        ImagePlan::Compose { caddy_domain } => assert!(caddy_domain.is_none()),
        other => panic!("{:?}", other),
    }
    assert_eq!(
        deploy_image_plan(&config("docker-compose", None, None)).unwrap_err(),
        "VPS configuration required for docker-compose deployment"
    );
    match deploy_image_plan(&config("docker", Some("reg.io/acme"), Some(("h", Some("d.io"))))).unwrap() {
        ImagePlan::Registry { local_image, remote_image, deploy_to_vps, caddy_domain } => {
            assert_eq!(local_image, "shop:latest");
            assert_eq!(remote_image, "reg.io/acme/shop:latest");
            assert!(deploy_to_vps);
            assert_eq!(caddy_domain.as_deref(), Some("d.io"));
        }
        other => panic!("{:?}", other),
    }
    assert!(matches!(deploy_image_plan(&config("docker", None, None)).unwrap(), ImagePlan::MiniPaas));
}

#[test]
fn remote_commands() {
    assert_eq!(compose_dirs_command("/home/u/shop"), "mkdir -p /home/u/shop/docker/keys /home/u/shop/monitoring/grafana/provisioning/datasources");
    assert_eq!(remote_destination("u", "h", "/x/y"), "u@h:/x/y");
    assert_eq!(remote_path("/d", ".env"), "/d/.env");
    assert_eq!(compose_pull_command("/d"), "cd /d && docker compose pull");
    assert_eq!(compose_start_command("/d"), "cd /d && docker compose up -d");
    assert_eq!(
        compose_ps_command("/d"),
        format!("cd {} && docker compose ps --format 'table {{{{.Name}}}}\\t{{{{.Status}}}}\\t{{{{.Health}}}}'", "/d")
    );
    assert!(compose_not_found_message().starts_with("No docker-compose file found. Expected one of: [\"docker-compose.production.yml\""));
}

#[test]
fn container_listing_verdicts() {
    assert_eq!(verify_containers("web  Exited (1)"), ContainersVerdict::Unhealthy);
    assert_eq!(verify_containers("web  Up 3 seconds"), ContainersVerdict::Running);
    assert_eq!(verify_containers("NAME STATUS"), ContainersVerdict::Unclear);
}

fn diag(logs: &str) -> DiagnosticResult {
    DiagnosticResult { container: "db".to_string(), issue: "i".to_string(), logs: logs.to_string(), suggestions: vec![] }
}

#[test]
fn recovery_after_start() {
    assert_eq!(recovery_plan(true, true, &vec![]), Recovery::Verify);
    assert_eq!(recovery_plan(true, false, &vec![]), Recovery::NoteOnly);
    assert_eq!(recovery_plan(false, true, &vec![diag("FATAL: Password authentication failed")]), Recovery::OfferPasswordFix);
    assert_eq!(recovery_plan(false, true, &vec![diag("oom")]), Recovery::OfferRestart);
}

#[test]
fn mounted_files_are_uploaded_from_the_first_local_copy() {
    let locals = volume_local_paths();
    assert_eq!(locals.len(), 7);
    assert_eq!(locals[3], vec!["litellm_config.yaml", "AGENTIC_HARNESS/litellm_config.yaml"]);
    let content = "volumes:\n  - ./litellm_config.yaml:/app/config.yaml\n  - ./docker/init-db.sql:/init.sql\n  - ./monitoring/alerts.yml:/alerts\n";
    let mut present: Vec<Vec<bool>> = locals.iter().map(|l| vec![false; l.len()]).collect();
    present[3][1] = true;
    present[0][0] = true;
    let ups = volume_uploads(content, "/srv/shop", &present);
    assert_eq!(ups.len(), 3);
    match &ups[0] {
        VolumeUpload::Upload { local_path, remote_path, mkdir } => {
            assert_eq!(local_path, "docker/init-db.sql");
            assert_eq!(remote_path, "/srv/shop/docker/init-db.sql");
            assert_eq!(mkdir.as_deref(), Some("mkdir -p /srv/shop/docker"));
        }
        other => panic!("{:?}", other),
    }
    match &ups[1] {
        VolumeUpload::Upload { local_path, remote_path, mkdir } => {
            assert_eq!(local_path, "AGENTIC_HARNESS/litellm_config.yaml");
            assert_eq!(remote_path, "/srv/shop/litellm_config.yaml");
            assert!(mkdir.is_none());
        }
        other => panic!("{:?}", other),
    }
    match &ups[2] {
        VolumeUpload::NotFound(n) => assert_eq!(n, "monitoring/alerts.yml"),
        other => panic!("{:?}", other),
    }
}

fn detected(name: &str, frontend: bool) -> DetectedService {
    DetectedService { name: name.to_string(), container_name: None, ports: vec![80], is_frontend: frontend }
}

fn service(name: &str, domain: Option<&str>, expose: bool) -> ServiceConfig {
    ServiceConfig { name: name.to_string(), domain: domain.map(|d| d.to_string()), port: 3000, path: None, expose }
}

#[test]
fn domain_configuration_plans() {
    assert_eq!(domain_plan(&vec![], &vec![]), DomainPlan::Skip);
    assert_eq!(domain_plan(&vec![detected("web", true)], &vec![]), DomainPlan::Ask);
    assert_eq!(domain_plan(&vec![detected("web", true)], &vec![service("web", None, true)]), DomainPlan::UseExisting);
    assert_eq!(domain_plan(&vec![detected("db", false)], &vec![]), DomainPlan::Skip);
    assert_eq!(domain_plan(&vec![detected("my-backend", false)], &vec![]), DomainPlan::Ask);
}

#[test]
fn configuration_hint_lists_exposed_services() {
    let hint = service_configs_hint(&vec![service("web", Some("shop.io"), true), service("db", None, false)]);
    assert_eq!(
        hint,
        vec![
            "",
            "💡 Tip: Add these to your .shipwright.yml to skip prompts next time:",
            "   deploy:",
            "     vps:",
            "       services:",
            "         - name: web",
            "           domain: shop.io",
            "           port: 3000",
        ]
    );
}

fn image(ctx: Option<&str>, dockerfile: Option<&str>) -> CustomImage {
    CustomImage {
        service_name: "api".to_string(),
        image_name: "hbec-api".to_string(),
        full_image: "acme/hbec-api:latest".to_string(),
        build_context: ctx.map(|c| c.to_string()),
        dockerfile: dockerfile.map(|d| d.to_string()),
    }
}

#[test]
fn custom_images_to_build() {
    assert_eq!(docker_registry(Some(&"acme".to_string())), Ok("acme".to_string()));
    assert_eq!(
        docker_registry(Some(&"".to_string())).unwrap_err(),
        "DOCKER_REGISTRY not set in .env file. Please set it to your Docker Hub username."
    );
    assert!(docker_registry(None).is_err());
    let images = vec![image(Some("./api"), None), image(None, None), image(Some("./x"), None)];
    let (build, skip) = images_to_build(&images, &vec![false, false, true]);
    assert_eq!(build, vec![0]);
    assert_eq!(skip, vec![1]);
    assert_eq!(
        docker_build_args(&images[0]).unwrap(),
        vec!["build", "-t", "acme/hbec-api:latest", "-f", "./api/Dockerfile", "./api"]
    );
    assert_eq!(docker_build_args(&image(Some("b"), Some("D.prod"))).unwrap()[4], "b/D.prod");
    assert!(docker_build_args(&images[1]).is_none());
}

#[test]
fn critical_file_follow_ups() {
    let missing = vec![("docker/keys/jwt_private.pem".to_string(), "k".to_string())];
    assert_eq!(critical_file_followups(&missing), (true, false));
    let missing = vec![("docker/init-db.sql".to_string(), "d".to_string())];
    assert_eq!(critical_file_followups(&missing), (false, true));
    assert_eq!(critical_file_followups(&vec![]), (false, false));
}

#[test]
fn restart_and_env_commands() {
    assert_eq!(compose_restart_command("/home/u/shop", "api"), "cd /home/u/shop && docker compose restart api");
    assert_eq!(remote_env_command("/home/u/shop"), "cat /home/u/shop/.env");
}
