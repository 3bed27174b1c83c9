use shipwright::protocol::{AgentMessage, BuildEvent, RollbackEvent};
use shipwright::watch::{websocket_url, App, MAX_LOG_LINES};

fn build(event: BuildEvent) -> AgentMessage {
    AgentMessage::BuildUpdate { project_name: "p".to_string(), event }
}

#[test]
fn new_app_is_connecting() {
    let app = App::new("shop".to_string());
    assert_eq!(app.project_name(), "shop");
    assert_eq!(app.status(), "Connecting...");
    assert!(app.logs().is_empty());
    assert!(!app.should_quit());
}

#[test]
fn build_events_update_status_and_log() {
    let mut app = App::new("shop".to_string());
    app.connected();
    assert_eq!(app.status(), "Idle");
    app.apply_message(&build(BuildEvent::Started));
    assert_eq!(app.status(), "Deploying...");
    app.apply_message(&build(BuildEvent::Log("step 1".to_string())));
    app.apply_message(&build(BuildEvent::Failed("boom".to_string())));
    assert_eq!(app.status(), "Failed");
    assert_eq!(app.logs().len(), 3);
    assert_eq!(app.logs()[1], "  step 1");
    assert_eq!(app.logs()[2], "❌ Deployment failed: boom");
}

#[test]
fn rollback_events() {
    let mut app = App::new("shop".to_string());
    app.apply_message(&AgentMessage::RollbackUpdate {
        project_name: "shop".to_string(),
        event: RollbackEvent::RollbackStarted {
            from_snapshot_id: "a".to_string(),
            to_snapshot_id: "b".to_string(),
            reason: "health".to_string(),
        },
    });
    assert_eq!(app.status(), "Rolling back...");
    app.apply_message(&AgentMessage::RollbackUpdate {
        project_name: "shop".to_string(),
        event: RollbackEvent::RollbackProgress("x".to_string()),
    });
    assert_eq!(app.logs().len(), 1);
    app.apply_message(&AgentMessage::Error("ignored".to_string()));
    assert_eq!(app.logs().len(), 1);
}

#[test]
fn log_is_bounded() {
    let mut app = App::new("shop".to_string());
    for i in 0..(MAX_LOG_LINES + 10) {
        app.add_log(format!("line {}", i));
    }
    assert_eq!(app.logs().len(), MAX_LOG_LINES);
    assert_eq!(app.logs()[0], "line 10");
    assert_eq!(app.logs()[MAX_LOG_LINES - 1], format!("line {}", MAX_LOG_LINES + 9));
}

#[test]
fn connection_state_changes() {
    let mut app = App::new("shop".to_string());
    app.connect_failed("refused");
    assert_eq!(app.status(), "Failed to connect: refused");
    app.connection_error("reset");
    assert_eq!(app.status(), "Error");
    assert_eq!(app.logs()[0], "WebSocket error: reset");
    app.closed();
    assert_eq!(app.status(), "Disconnected");
    assert_eq!(app.logs()[1], "Connection closed by agent.");
}

#[test]
fn websocket_address() {
    assert_eq!(websocket_url("10.0.0.5"), "ws://10.0.0.5:17671");
}
