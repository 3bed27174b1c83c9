use shipwright::agent_build::{
    build_method, build_output_event, compose_build_args, convert_to_ssh_url, env_file_action, local_build_needed,
    skip_context_entry, stage_failure, BuildMethod, EnvFileAction, RunStage,
};
use shipwright::deployment_tracking::DeploymentStatus;
use shipwright::protocol::{AgentMessage, BuildEvent};

#[test]
fn clone_urls() {
    assert_eq!(convert_to_ssh_url("https://github.com/ann/shop.git"), "git@github.com:ann/shop.git");
    assert_eq!(convert_to_ssh_url("git@github.com:ann/shop.git"), "git@github.com:ann/shop.git");
    assert_eq!(convert_to_ssh_url("https://gitlab.com/ann/shop"), "https://gitlab.com/ann/shop");
}

#[test]
fn choosing_the_build() {
    let none = vec![false; 6];
    let mut some = vec![false; 6];
    some[3] = true;
    some[5] = true;
    assert_eq!(
        build_method(&Some("custom.yml".to_string()), &none, false),
        Ok(BuildMethod::Compose("custom.yml".to_string()))
    );
    assert_eq!(build_method(&None, &some, true), Ok(BuildMethod::Compose("docker-compose.yml".to_string())));
    assert_eq!(build_method(&None, &none, true), Ok(BuildMethod::Dockerfile));
    assert_eq!(build_method(&None, &none, false), Err("No Dockerfile or docker-compose.yml found".to_string()));
    assert_eq!(compose_build_args("a.yml"), vec!["compose", "-f", "a.yml", "build"]);
}

#[test]
fn env_file_actions() {
    assert_eq!(env_file_action(true, &None, true, true), EnvFileAction::Keep);
    let vars = Some(vec![("A".to_string(), "1".to_string()), ("B".to_string(), "x y".to_string())]);
    assert_eq!(env_file_action(false, &vars, true, true), EnvFileAction::CopyExample);
    assert_eq!(env_file_action(false, &vars, false, true), EnvFileAction::CopyTemplate);
    assert_eq!(env_file_action(false, &vars, false, false), EnvFileAction::Write("A=1\nB=x y\n".to_string()));
    assert_eq!(
        env_file_action(false, &Some(vec![]), false, false),
        EnvFileAction::Write("# Auto-generated by Shipwright - Please update with your values\n".to_string())
    );
    assert_eq!(
        env_file_action(false, &None, false, false),
        EnvFileAction::Write("# Auto-generated by Shipwright - Please update with your values\n".to_string())
    );
}

#[test]
fn run_events() {
    let (m, s) = stage_failure(RunStage::Clone, "shop", "no access");
    assert!(s.is_none());
    match m {
        AgentMessage::BuildUpdate { project_name, event: BuildEvent::Failed(e) } => {
            assert_eq!(project_name, "shop");
            assert_eq!(e, "Clone failed: no access");
        }
        other => panic!("unexpected {:?}", other),
    }
    let (m2, s2) = stage_failure(RunStage::Deploy, "shop", "x");
    assert_eq!(s2, Some(DeploymentStatus::Failed));
    assert!(matches!(m2, AgentMessage::BuildUpdate { event: BuildEvent::Failed(ref e), .. } if e == "Deployment failed: x"));
    assert!(matches!(build_output_event("shop", "Step 1/4\n"), AgentMessage::BuildUpdate { event: BuildEvent::Log(ref l), .. } if l == "Step 1/4"));
}

#[test]
fn local_builds() {
    assert_eq!(local_build_needed(true, "docker"), Ok(true));
    assert_eq!(local_build_needed(false, "docker-compose"), Ok(false));
    assert!(local_build_needed(false, "docker").is_err());
    assert!(skip_context_entry("node_modules"));
    assert!(!skip_context_entry("src"));
}
