use shipwright::cli_secrets::{
    all_secrets_url, delete_prompt, delete_secret_url, export_output, get_secret_url, join_strings,
    list_metadata_output, list_secrets_url, list_values_output, pad_right, secret_output, set_request,
    set_secret_url, timestamp_text,
};
use shipwright::secrets::{text_less, AuditAction, SecretMetadata, SecretStorage, SecretWithValue};
use shipwright::secrets_api::{
    delete_secret_reply, get_all_secrets_reply, get_secret_reply, list_secrets_reply, set_secret_reply, SecretsReply,
};

fn storage() -> SecretStorage {
    SecretStorage::new("agent-1".to_string())
}

#[test]
fn a_secret_reads_back_as_written() {
    let mut s = storage();
    s.set_secret("proj", "Proj", "DB_PASSWORD", "hunter2", Some(vec!["db".to_string()]), "cli").unwrap();
    let got = s.get_secret("proj", "Proj", "DB_PASSWORD", "cli").unwrap();
    assert_eq!(got.name, "DB_PASSWORD");
    assert_eq!(got.value, "hunter2");
    assert_eq!(got.tags, Some(vec!["db".to_string()]));
}

#[test]
fn setting_again_replaces_the_value() {
    let mut s = storage();
    s.set_secret("proj", "Proj", "K", "one", None, "cli").unwrap();
    s.set_secret("proj", "Proj", "K", "two", None, "cli").unwrap();
    assert_eq!(s.get_secret("proj", "Proj", "K", "cli").unwrap().value, "two");
    assert_eq!(s.list_secrets("proj").unwrap().len(), 1);
}

#[test]
fn another_project_name_cannot_read_the_secret() {
    let mut s = storage();
    s.set_secret("proj", "Proj", "K", "v", None, "cli").unwrap();
    let err = s.get_secret("proj", "Other", "K", "cli").unwrap_err();
    assert_eq!(err, "Failed to decrypt secret (wrong key or corrupted data): Error");
}

#[test]
fn deleted_secret_is_gone() {
    let mut s = storage();
    s.set_secret("proj", "Proj", "K", "v", None, "cli").unwrap();
    s.delete_secret("proj", "K", "cli").unwrap();
    assert_eq!(s.get_secret("proj", "Proj", "K", "cli").unwrap_err(), "Secret 'K' not found");
    assert_eq!(s.delete_secret("proj", "K", "cli").unwrap_err(), "Secret 'K' not found");
}

#[test]
fn listings_are_sorted_by_name_and_per_project() {
    let mut s = storage();
    s.set_secret("proj", "Proj", "ZED", "z", None, "cli").unwrap();
    s.set_secret("proj", "Proj", "ALPHA", "a", None, "cli").unwrap();
    s.set_secret("proj", "Proj", "MID", "m", None, "cli").unwrap();
    s.set_secret("other", "Other", "ALPHA", "x", None, "cli").unwrap();
    let names: Vec<String> = s.list_secrets("proj").unwrap().into_iter().map(|m| m.name).collect();
    assert_eq!(names, vec!["ALPHA", "MID", "ZED"]);
    let all = s.get_all_secrets("proj", "Proj", "cli").unwrap();
    let pairs: Vec<(String, String)> = all.into_iter().map(|x| (x.name, x.value)).collect();
    assert_eq!(
        pairs,
        vec![("ALPHA".to_string(), "a".to_string()), ("MID".to_string(), "m".to_string()), ("ZED".to_string(), "z".to_string())]
    );
    assert!(s.list_secrets("empty").unwrap().is_empty());
}

#[test]
fn every_operation_is_audited() {
    let mut s = storage();
    s.set_secret("proj", "Proj", "K", "v1", None, "alice").unwrap();
    s.set_secret("proj", "Proj", "K", "v2", None, "bob").unwrap();
    s.get_secret("proj", "Proj", "K", "carol").unwrap();
    s.delete_secret("proj", "K", "dave").unwrap();
    let log = s.get_audit_log("proj", None).unwrap();
    assert_eq!(log.len(), 4);
    let mut actions: Vec<String> = log.iter().map(|e| e.action.clone()).collect();
    actions.sort();
    assert_eq!(actions, vec!["accessed", "created", "deleted", "updated"]);
    assert!(log.iter().all(|e| e.secret_name.as_deref() == Some("K")));
    assert_eq!(s.get_audit_log("proj", Some(2)).unwrap().len(), 2);
    assert!(s.get_audit_log("other", None).unwrap().is_empty());
}

#[test]
fn names_order_by_code_point() {
    assert!(text_less("A", "B"));
    assert!(text_less("AB", "ABC"));
    assert!(!text_less("b", "B"));
    assert!(!text_less("x", "x"));
}

#[test]
fn api_replies_carry_status_and_message() {
    let (st, r) = set_secret_reply(Ok(()), "K");
    assert_eq!(st, 200);
    match r {
        SecretsReply::Stored(b) => assert_eq!((b.success, b.message.as_str()), (true, "Secret 'K' set successfully")),
        _ => panic!(),
    }
    let (st, r) = set_secret_reply(Err("bad".to_string()), "K");
    assert_eq!(st, 500);
    match r {
        SecretsReply::Failed(e) => assert_eq!(e.error, "Failed to set secret: bad"),
        _ => panic!(),
    }
    let (st, r) = get_secret_reply(Err("Secret 'K' not found".to_string()));
    assert_eq!(st, 404);
    match r {
        SecretsReply::Failed(e) => assert_eq!(e.error, "Failed to get secret: Secret 'K' not found"),
        _ => panic!(),
    }
    let (st, _) = list_secrets_reply(Ok(vec![]));
    assert_eq!(st, 200);
    let (st, r) = get_all_secrets_reply(Err("e".to_string()));
    assert_eq!(st, 500);
    assert!(matches!(r, SecretsReply::Failed(ref e) if e.error == "Failed to get all secrets: e"));
    let (st, r) = delete_secret_reply(Ok(()), "K");
    assert_eq!(st, 200);
    assert!(matches!(r, SecretsReply::Deleted(ref b) if b.message == "Secret 'K' deleted successfully"));
    let (st, _) = delete_secret_reply(Err("x".to_string()), "K");
    assert_eq!(st, 404);
}

#[test]
fn cli_endpoints_and_requests() {
    assert_eq!(set_secret_url("h"), "http://h:17670/api/v1/secrets");
    assert_eq!(get_secret_url("h", "K"), "http://h:17670/api/v1/secrets/K");
    assert_eq!(all_secrets_url("h"), "http://h:17670/api/v1/secrets/all");
    assert_eq!(list_secrets_url("h"), "http://h:17670/api/v1/secrets/list");
    assert_eq!(delete_secret_url("h", "K"), "http://h:17670/api/v1/secrets/K/delete");
    let r = set_request("shop", "K".to_string(), "v".to_string(), vec![]);
    assert!(r.tags.is_none());
    assert_eq!((r.project_id.as_str(), r.project_name.as_str(), r.performed_by.as_str()), ("shop", "shop", "cli"));
    let r = set_request("shop", "K".to_string(), "v".to_string(), vec!["t".to_string()]);
    assert_eq!(r.tags, Some(vec!["t".to_string()]));
    assert_eq!(delete_prompt("K"), "Are you sure you want to delete secret 'K'?");
}

fn with_value(name: &str, value: &str) -> SecretWithValue {
    SecretWithValue { name: name.to_string(), value: value.to_string(), created_at: 0, updated_at: 86400, tags: None }
}

#[test]
fn cli_output_formats() {
    assert_eq!(timestamp_text(0, "%Y-%m-%d %H:%M:%S"), "1970-01-01 00:00:00");
    assert_eq!(timestamp_text(86400 + 3661, "%Y-%m-%d %H:%M"), "1970-01-02 01:01");
    assert_eq!(timestamp_text(i64::MAX, "%Y"), "Unknown");
    assert_eq!(pad_right("ab", 5), "ab   ");
    assert_eq!(pad_right("abcdef", 3), "abcdef");
    assert_eq!(join_strings(&vec!["a".to_string(), "b".to_string()], ", "), "a, b");

    assert_eq!(list_values_output("shop", &vec![]), vec!["📭 No secrets configured for this project"]);
    assert_eq!(
        list_values_output("shop", &vec![with_value("A", "1")]),
        vec!["", "🔐 Secrets for project 'shop':", "", "   A=1", ""]
    );
    let meta = vec![SecretMetadata { name: "A".to_string(), created_at: 0, updated_at: 60, tags: Some(vec!["x".to_string(), "y".to_string()]) }];
    let lines = list_metadata_output("shop", &meta);
    assert_eq!(lines.len(), 8);
    assert_eq!(lines[3], format!("   {:<30} {:<20} {:<20}", "NAME", "CREATED", "UPDATED"));
    assert_eq!(lines[4], format!("   {}", "-".repeat(70)));
    assert_eq!(lines[5], format!("   {:<30} {:<20} {:<20}", "A", "1970-01-01 00:00", "1970-01-01 00:01"));
    assert_eq!(lines[6], "   └─ Tags: x, y");
    assert_eq!(lines[7], "");

    let shown = secret_output(&with_value("A", "1"), false);
    assert_eq!(
        shown,
        vec![
            "",
            "🔐 Secret: A",
            "   Value: ********** (use --show to reveal)",
            "   Created: 1970-01-01 00:00:00",
            "   Updated: 1970-01-02 00:00:00"
        ]
    );
    assert_eq!(secret_output(&with_value("A", "1"), true)[2], "   Value: 1");
    assert_eq!(export_output("shop", "now", &vec![]), vec!["# No secrets configured"]);
    assert_eq!(
        export_output("shop", "now", &vec![with_value("A", "1"), with_value("B", "2")]),
        vec!["# Secrets for project 'shop'", "# Exported at: now", "", "A=1", "B=2"]
    );
}

#[test]
fn timestamp_with_unknown_specifier_is_unknown() {
    assert_eq!(timestamp_text(0, "%Q"), "Unknown");
}

#[test]
fn audit_rows_name_who_read_and_deleted() {
    let mut s = storage();
    s.set_secret("p1", "shop", "DB_PASS", "hunter2", Some(vec!["db".to_string()]), "alice").unwrap();
    let v = s.get_secret("p1", "shop", "DB_PASS", "bob").unwrap();
    assert_eq!(v.value, "hunter2");
    assert_eq!(v.tags, Some(vec!["db".to_string()]));
    let last = s.audit_entries().last().unwrap();
    assert_eq!(last.action, AuditAction::Accessed);
    assert_eq!(last.performed_by, "bob");
    assert_eq!(last.secret_name.as_deref(), Some("DB_PASS"));
    s.delete_secret("p1", "DB_PASS", "carol").unwrap();
    let last = s.audit_entries().last().unwrap();
    assert_eq!(last.action, AuditAction::Deleted);
    assert_eq!(last.performed_by, "carol");
}

#[test]
fn store_with_given_id_is_refused_when_taken() {
    let mut s = storage();
    let a = s.get_or_create_store_with("p1", "store-1".to_string(), 10).unwrap();
    assert_eq!(a.id, "store-1");
    assert_eq!(a.created_at, 10);
    let same = s.get_or_create_store_with("p1", "other".to_string(), 20).unwrap();
    assert_eq!(same.id, "store-1");
    let clash = s.get_or_create_store_with("p2", "store-1".to_string(), 30);
    assert_eq!(clash.unwrap_err(), "UNIQUE constraint failed: secret_stores.id");
}

#[test]
fn deleting_a_missing_secret_changes_nothing() {
    let mut s = storage();
    s.set_secret("p1", "shop", "A", "1", None, "alice").unwrap();
    let secrets_before = s.secrets().len();
    let audit_before = s.audit_entries().len();
    let stores_before = s.stores().len();
    assert_eq!(s.delete_secret("p1", "B", "bob").unwrap_err(), "Secret 'B' not found");
    assert_eq!(s.secrets().len(), secrets_before);
    assert_eq!(s.audit_entries().len(), audit_before);
    assert_eq!(s.stores().len(), stores_before);
    assert_eq!(s.get_secret("p1", "shop", "A", "bob").unwrap().value, "1");
}
