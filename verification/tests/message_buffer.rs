use shipwright::message_buffer::{connection_step, metrics_snapshot, ConnectionAction, ConnectionEvent, MessageBuffer};
use shipwright::protocol::{AgentMessage, BuildEvent};

fn build_update(project: &str, event: BuildEvent) -> AgentMessage {
    AgentMessage::BuildUpdate { project_name: project.to_string(), event }
}

#[test]
fn test_message_buffer() {
    let mut buffer = MessageBuffer::new();
    buffer.push(build_update("test-project", BuildEvent::Started));
    buffer.push(build_update("test-project", BuildEvent::Log("Building...".to_string())));

    let messages = buffer.get_all();
    assert_eq!(messages.len(), 2);

    let project_messages = buffer.get_for_project("test-project");
    assert_eq!(project_messages.len(), 2);

    let other_messages = buffer.get_for_project("other-project");
    assert_eq!(other_messages.len(), 0);
}

#[test]
fn buffer_keeps_the_newest_two_hundred() {
    let mut buffer = MessageBuffer::new();
    for i in 0..250 {
        buffer.push(build_update("p", BuildEvent::Log(format!("line {}", i))));
    }
    assert_eq!(buffer.len(), 200);
    let all = buffer.get_all();
    match &all[0] {
        AgentMessage::BuildUpdate { event: BuildEvent::Log(l), .. } => assert_eq!(l, "line 50"),
        other => panic!("unexpected {:?}", other),
    }
    match &all[199] {
        AgentMessage::BuildUpdate { event: BuildEvent::Log(l), .. } => assert_eq!(l, "line 249"),
        other => panic!("unexpected {:?}", other),
    }
}

#[test]
fn buffer_drops_messages_that_are_not_updates() {
    let mut buffer = MessageBuffer::new();
    buffer.push(AgentMessage::Connect {
        agent_id: "a".to_string(),
        hostname: "h".to_string(),
        version: "v".to_string(),
    });
    assert_eq!(buffer.len(), 0);
    buffer.push(AgentMessage::Error("boom".to_string()));
    assert_eq!(buffer.len(), 1);
    buffer.push(build_update("p", BuildEvent::Success));
    assert_eq!(buffer.len(), 2);
    buffer.clear();
    assert_eq!(buffer.len(), 0);
    assert!(buffer.get_all().is_empty());
}

#[test]
fn connection_forwards_samples_and_broadcasts_and_stops_on_close() {
    let snap = metrics_snapshot(1000, 7, 10, 20);
    assert_eq!(snap.disk_usage_bits, 0);
    match connection_step(ConnectionEvent::MetricsTick(snap)) {
        ConnectionAction::Send(AgentMessage::Metrics(s)) => {
            assert_eq!(s.timestamp_millis, 1000);
            assert_eq!(s.memory_total, 20);
        }
        _ => panic!("metrics are sent"),
    }
    assert!(matches!(
        connection_step(ConnectionEvent::Broadcast(AgentMessage::Error("x".to_string()))),
        ConnectionAction::Send(AgentMessage::Error(_))
    ));
    assert!(matches!(connection_step(ConnectionEvent::TextFrame("{}".to_string())), ConnectionAction::Ignore));
    assert!(matches!(connection_step(ConnectionEvent::OtherFrame), ConnectionAction::Ignore));
    assert!(matches!(connection_step(ConnectionEvent::CloseFrame), ConnectionAction::Stop));
    assert!(matches!(connection_step(ConnectionEvent::ReadError), ConnectionAction::Stop));
    assert!(matches!(connection_step(ConnectionEvent::SendFailed), ConnectionAction::Stop));
}
