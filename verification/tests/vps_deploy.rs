use shipwright::env_validator::{read_env_file, set_pair};
use shipwright::vps_deploy::{
    critical_file_paths, deploy_to_vps, env_file_choice, execute_sudo_command, extract_custom_images, find_build_context_for_service,
    is_sensitive_var, missing_critical_files, missing_env_vars, parse_env_file, parse_required_env_vars,
    registries_in_compose, registry_login_check_command, registry_login_command, remote_project_dir,
    rewrite_env_file, setup_caddy_proxy, var_prompt,
};

#[test]
fn remote_commands_of_a_single_container() {
    assert_eq!(execute_sudo_command("p'w", "ls -la"), "echo 'p'\\''w' | sudo -S bash -c 'ls -la'");
    assert_eq!(remote_project_dir("deploy", "shop"), "/home/deploy/shop");
    assert_eq!(
        deploy_to_vps("reg/shop:latest", "shop"),
        vec![
            "docker pull reg/shop:latest",
            "docker stop shop || true",
            "docker rm shop || true",
            "docker run -d --name shop reg/shop:latest "
        ]
    );
    assert_eq!(
        setup_caddy_proxy("shop.io", 8080),
        "# Managed by Shipwright - Project: default\n# Do not edit manually - changes will be overwritten\n\nshop.io {\n    reverse_proxy -app:8080\n}\n\n"
    );
}

#[test]
fn required_variables_are_read_once_with_hints() {
    let compose = "environment:\n  - A=${DB_PASSWORD:?Database password}\n  - B=${DB_PASSWORD:?again}\n  - C=${API_KEY:?}\n  - D=${OPTIONAL:-x}\n";
    let req = parse_required_env_vars(compose);
    assert_eq!(
        req,
        vec![("DB_PASSWORD".to_string(), "Database password".to_string()), ("API_KEY".to_string(), "".to_string())]
    );
    let env = parse_env_file("DB_PASSWORD=\nOTHER=1\n");
    let missing = missing_env_vars(&req, &env);
    assert_eq!(missing.len(), 2);
    let env = read_env_file("DB_PASSWORD=x\nAPI_KEY=y\n");
    assert!(missing_env_vars(&req, &env).is_empty());
}

#[test]
fn env_file_choices_and_prompts() {
    assert_eq!(env_file_choice(true, true), ".env");
    assert_eq!(env_file_choice(false, true), ".env.production");
    assert_eq!(env_file_choice(false, false), ".env");
    assert!(is_sensitive_var("DB_Password"));
    assert!(is_sensitive_var("API_KEY"));
    assert!(!is_sensitive_var("PORT"));
    assert_eq!(var_prompt("PORT", ""), "PORT");
    assert_eq!(var_prompt("PORT", "http port"), "PORT (http port)");
}

#[test]
fn env_file_is_rewritten_with_new_values() {
    let original = "# settings\nA=1\nB=old\n\nnot an assignment\n";
    let out = rewrite_env_file(original, vec![("B".to_string(), "new value".to_string()), ("C".to_string(), "3".to_string())]);
    assert_eq!(out, "# settings\nA=1\nB=\"new value\"\n\n\n# Added by Shipwright\nC=3\n");
}

#[test]
fn critical_files_referenced_but_absent() {
    let content = "volumes:\n  - ./docker/keys/jwt_private.pem:/k\n  - ./docker/init-db.sql:/i\n";
    let missing = missing_critical_files(content, &vec![false, false, true]);
    assert_eq!(missing, vec![("docker/keys/jwt_private.pem".to_string(), "JWT private key for authentication".to_string())]);
}

#[test]
fn registries_of_private_images() {
    let compose = "services:\n  a:\n    image: ghcr.io/acme/a:1\n  b:\n    image: \"myreg.azurecr.io/b:2\"\n  c:\n    image: postgres:16\n  d:\n    image: ghcr.io/acme/d\n";
    assert_eq!(registries_in_compose(compose), vec!["ghcr.io", "myreg.azurecr.io"]);
    assert_eq!(
        registry_login_check_command("ghcr.io"),
        "cat ~/.docker/config.json 2>/dev/null | grep -q 'ghcr.io' && echo 'logged_in' || echo 'not_logged_in'"
    );
    assert_eq!(registry_login_command("ghcr.io", "me", "t0k"), "echo 't0k' | docker login ghcr.io -u me --password-stdin");
}

#[test]
fn custom_images_use_the_registry_and_tag() {
    let compose = "services:\n  backend:\n    image: ${DOCKER_REGISTRY:-ghcr.io/x}/hbec-backend:${TAG:-latest}\n  worker:\n    image: ${DOCKER_REGISTRY}/hbec-backend:${TAG}\n  db:\n    image: postgres\n";
    let dev = "services:\n  backend:\n    build:\n      context: ./backend\n      dockerfile: Dockerfile.dev\n  web:\n    build: ./web\n".to_string();
    let env = read_env_file("DOCKER_REGISTRY=acme\nTAG=v2\n");
    let images = extract_custom_images(compose, &env, &Some(dev.clone()));
    assert_eq!(images.len(), 1);
    assert_eq!(images[0].service_name, "backend");
    assert_eq!(images[0].image_name, "hbec-backend");
    assert_eq!(images[0].full_image, "acme/hbec-backend:v2");
    assert_eq!(images[0].build_context.as_deref(), Some("./backend"));
    assert_eq!(images[0].dockerfile.as_deref(), Some("Dockerfile.dev"));
    let plain = extract_custom_images(compose, &read_env_file(""), &None);
    assert_eq!(plain[0].full_image, "hbec-backend:latest");
    assert!(plain[0].build_context.is_none());
    assert_eq!(find_build_context_for_service(&dev, "web"), Some(("./web".to_string(), None)));
    assert_eq!(find_build_context_for_service(&dev, "db"), None);
}

#[test]
fn critical_paths_and_setting_a_variable() {
    assert_eq!(
        critical_file_paths(),
        vec!["docker/keys/jwt_private.pem", "docker/keys/jwt_public.pem", "docker/init-db.sql"]
    );
    let mut vars = vec![("A".to_string(), "".to_string()), ("B".to_string(), "2".to_string())];
    set_pair(&mut vars, "A".to_string(), "1".to_string());
    set_pair(&mut vars, "C".to_string(), "3".to_string());
    assert_eq!(
        vars,
        vec![("A".to_string(), "1".to_string()), ("B".to_string(), "2".to_string()), ("C".to_string(), "3".to_string())]
    );
}
