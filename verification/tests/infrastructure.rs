use shipwright::infrastructure::{
    deploy_directory_candidates, detect_proxy, detect_shared_resources, infrastructure_info, network_of,
    recommend_deploy_dir, recommend_networks, recommend_strategy, ContainerSummary, NetworkInfo,
};

fn c(name: &str, image: &str) -> ContainerSummary {
    ContainerSummary {
        first_name: Some(format!("/{}", name)),
        image: Some(image.to_string()),
        networks: vec!["bridge".to_string()],
        ports: vec![5432],
    }
}

fn net(name: &str) -> NetworkInfo {
    network_of(Some(name.to_string()), Some("id".to_string()), Some("bridge".to_string()), Some("local".to_string())).unwrap()
}

#[test]
fn proxies_are_recognised() {
    assert_eq!(detect_proxy(&vec![c("web", "node"), c("edge", "Caddy:2")]), Some(("caddy".to_string(), "edge".to_string())));
    assert_eq!(detect_proxy(&vec![c("nginx-proxy", "nginx:1")]), Some(("nginx".to_string(), "nginx-proxy".to_string())));
    assert_eq!(detect_proxy(&vec![c("web", "nginx:1")]), None);
    assert_eq!(detect_proxy(&vec![c("t", "traefik:v2")]), Some(("traefik".to_string(), "t".to_string())));
}

#[test]
fn shared_resources_prefer_shared_names() {
    let cs = vec![c("app-db", "postgres:16"), c("shared-postgres", "postgres:15"), c("other-db", "postgres:14"), c("cache", "redis:7")];
    let r = detect_shared_resources(&cs);
    assert_eq!(r.postgres.unwrap().container_name, "shared-postgres");
    assert_eq!(r.redis.as_ref().unwrap().container_name, "cache");
    assert_eq!(r.redis.unwrap().ports, vec![5432]);
    assert!(r.rabbitmq.is_none());
    assert!(r.other.is_empty());
}

#[test]
fn networks_need_every_field() {
    assert!(network_of(Some("a".to_string()), None, Some("b".to_string()), Some("c".to_string())).is_none());
    assert_eq!(net("proxy-tier").name, "proxy-tier");
}

#[test]
fn recommendations() {
    let dirs = deploy_directory_candidates(&vec!["/home/a".to_string()], "/root");
    assert_eq!(dirs, vec!["/opt/apps", "/var/www", "/home/a/apps", "/home/a/projects", "/root/apps", "/root/projects"]);

    let shared = detect_shared_resources(&vec![c("shared-postgres", "postgres")]);
    let info = infrastructure_info(
        Some(("caddy".to_string(), "edge".to_string())),
        vec![net("bridge"), net("caddy-proxy"), net("shared-internal")],
        shared,
        vec!["/opt/apps".to_string(), "/var/www".to_string()],
    );
    assert!(info.is_multi_project);
    assert_eq!(recommend_strategy(&info), "compose");
    assert_eq!(recommend_networks(&info), vec!["caddy-proxy", "shared-internal"]);
    assert_eq!(recommend_deploy_dir(&info, "shop", &vec![false, true], "/root"), "/var/www/shop");
    assert_eq!(recommend_deploy_dir(&info, "shop", &vec![false, false], "/root"), "/opt/apps/shop");

    let lone = infrastructure_info(None, vec![], detect_shared_resources(&vec![]), vec![]);
    assert!(!lone.is_multi_project);
    assert_eq!(recommend_strategy(&lone), "standalone");
    assert!(recommend_networks(&lone).is_empty());
    assert_eq!(recommend_deploy_dir(&lone, "shop", &vec![], "/root"), "/root/apps/shop");
}
