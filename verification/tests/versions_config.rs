use shipwright::config::{
    default_deploy_strategy, default_port, default_postgres_port, default_redis_port, default_replicas,
    default_test_categories, default_true,
};
use shipwright::rollback::{
    actual_strategy, container_service_name, determine_hybrid_strategy, estimated_rollback_time, rollback_tag,
    split_image_ref, RollbackConfig, RollbackStrategy,
};
use shipwright::version::{get_detailed_version, get_version_string};
use shipwright::rollback::{
    backup_candidates, backup_command, backup_file_name, database_kind, find_db_container, restore_command,
    restore_target, DatabaseKind,
};
use shipwright::rollback::{
    commit_message_output, project_volumes, retag_for_rollback, rev_parse_output, service_container_name,
    volume_archive_command,
};
use shipwright::updates::{self_update_repo, self_update_steps};

#[test]
fn version_strings() {
    assert_eq!(get_version_string(), "Shipwright v0.1.3");
    assert_eq!(get_detailed_version(), "Shipwright v0.1.3\nAgent: v0.1.3\nCLI: v0.1.3");
}

#[test]
fn config_defaults() {
    assert_eq!(default_deploy_strategy(), "auto");
    assert_eq!(default_postgres_port(), 5432);
    assert_eq!(default_redis_port(), 6379);
    assert_eq!(default_replicas(), 1);
    assert_eq!(default_port(), 80);
    assert!(default_true());
    assert_eq!(default_test_categories(), vec!["pre_deployment", "post_build", "post_deployment"]);
}

#[test]
fn rollback_strategy_choice() {
    assert_eq!(determine_hybrid_strategy("api", true, false), RollbackStrategy::Snapshot);
    assert_eq!(determine_hybrid_strategy("shop-frontend", false, false), RollbackStrategy::GitCommit);
    assert_eq!(determine_hybrid_strategy("worker", false, false), RollbackStrategy::ImageTagging);
    assert_eq!(actual_strategy(RollbackStrategy::GitCommit, "api", true, true), RollbackStrategy::GitCommit);
    assert_eq!(actual_strategy(RollbackStrategy::Hybrid, "api", false, true), RollbackStrategy::Snapshot);
    assert_eq!(estimated_rollback_time(RollbackStrategy::ImageTagging), Some(10));
    assert_eq!(estimated_rollback_time(RollbackStrategy::GitCommit), Some(180));
    assert_eq!(estimated_rollback_time(RollbackStrategy::Snapshot), Some(45));
    assert_eq!(estimated_rollback_time(RollbackStrategy::Hybrid), None);
    let c = RollbackConfig::default();
    assert!(matches!(c.strategy, RollbackStrategy::Hybrid));
}

#[test]
fn image_refs_and_names() {
    assert_eq!(split_image_ref("registry:5000/app:v2"), ("registry:5000/app".to_string(), "v2".to_string()));
    assert_eq!(split_image_ref("nginx"), ("nginx".to_string(), "latest".to_string()));
    assert_eq!(container_service_name("/shop-shop-web", "shop"), "web");
    assert_eq!(container_service_name("other", "shop"), "other");
    assert_eq!(rollback_tag(1700000000), "rollback-1700000000");
    assert_eq!(rollback_tag(-5), "rollback--5");
}

#[test]
fn database_backups() {
    assert_eq!(database_kind("postgres:15"), Some(DatabaseKind::Postgres));
    assert_eq!(database_kind("mariadb:11"), Some(DatabaseKind::MySql));
    assert_eq!(database_kind("mongo:7"), Some(DatabaseKind::MongoDb));
    assert_eq!(database_kind("nginx"), None);
    assert_eq!(backup_file_name(DatabaseKind::MySql), "mysql_backup.sql");
    assert_eq!(backup_command(DatabaseKind::Postgres, "db"), vec!["exec", "db", "pg_dumpall", "-U", "postgres"]);
    assert_eq!(restore_command(DatabaseKind::MongoDb, "db", "/b"), vec!["exec", "db", "mongorestore", "/b"]);
    let containers = vec![
        (vec!["/shop-web".to_string()], Some("nginx".to_string())),
        (vec!["/shop-db".to_string(), "/other".to_string()], Some("postgres:15".to_string())),
    ];
    let c = backup_candidates(&containers, "shop");
    assert_eq!(c, vec![("/shop-db".to_string(), DatabaseKind::Postgres)]);
    assert_eq!(find_db_container(&containers, "shop"), Ok("shop-db".to_string()));
    assert_eq!(find_db_container(&containers, "blog"), Err("No database container found".to_string()));
    let by_name = vec![(vec!["/shop-MongoStore".to_string()], None)];
    assert_eq!(find_db_container(&by_name, "shop"), Ok("shop-MongoStore".to_string()));
    assert_eq!(restore_target(Some("c".to_string()), "shop", false, true, true), Some((DatabaseKind::MySql, "c".to_string())));
    assert_eq!(restore_target(None, "shop", true, false, false), Some((DatabaseKind::Postgres, "shop-db".to_string())));
    assert_eq!(restore_target(None, "shop", false, true, false), None);
}

#[test]
fn volume_and_image_steps() {
    assert_eq!(
        project_volumes(&vec!["shop_data".to_string(), "blog_data".to_string()], "shop"),
        vec!["shop_data"]
    );
    let b = volume_archive_command("shop_data", "/s/volumes/shop_data", false);
    assert_eq!(b[3], "shop_data:/source");
    assert_eq!(b[9], "cd /source && tar czf /backup/data.tar.gz .");
    let r = volume_archive_command("shop_data", "/s", true);
    assert_eq!(r[3], "shop_data:/target");
    assert_eq!(service_container_name("shop", "web"), "shop-web");
    assert_eq!(
        retag_for_rollback("registry:5000/shop-web:latest", "rollback-17"),
        ("registry:5000/shop-web:rollback-17".to_string(), "registry:5000/shop-web".to_string())
    );
    assert_eq!(rev_parse_output(true, " abc\n"), Ok("abc".to_string()));
    assert_eq!(rev_parse_output(false, "x"), Err("Git rev-parse failed".to_string()));
    assert_eq!(commit_message_output(false, "x"), "No commit message");
}

#[test]
fn self_update_steps_by_mode() {
    let s = self_update_steps(false, "/opt/repo");
    assert_eq!(s.len(), 4);
    assert_eq!(s[0].program, "git");
    assert_eq!(s[2].program, "install");
    assert_eq!(s[2].args[2], "/opt/repo/target/release/shipwright-agent");
    assert_eq!(s[3].failure, "Failed to restart service");
    let d = self_update_steps(true, "/opt/repo");
    assert_eq!(d[2].args, vec!["build", "-f", "agent/Dockerfile.runtime", "-t", "shipwright-agent:latest", "."]);
    assert_eq!(d[3].failure, "Failed to restart container");
    assert_eq!(self_update_repo(true, None), Some("/home/shipwright/.shipwright/repo".to_string()));
    assert_eq!(self_update_repo(false, None), None);
}
