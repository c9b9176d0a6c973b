use mcp_a2a::json::JsonValue;
use mcp_a2a::server::{
    A2aServer, CancelTaskInput, ConfigurePushNotificationsInput, GetExtendedAgentCardInput, GetTaskInput,
    ListTasksInput, ResolveAgentCardInput, SendMessageInput, SendStreamingMessageInput, SubscribeToTaskInput,
};
use mcp_a2a::store::A2aStore;
use mcp_a2a::types::{AgentCard, TaskState};

fn s(x: &str) -> JsonValue {
    JsonValue::String(x.to_string())
}

fn obj(pairs: Vec<(&str, JsonValue)>) -> JsonValue {
    JsonValue::Object(pairs.into_iter().map(|(k, v)| (k.to_string(), v)).collect())
}

fn reply(task_id: &str, state: &str) -> JsonValue {
    obj(vec![("result", obj(vec![("id", s(task_id)), ("status", obj(vec![("state", s(state))]))]))])
}

fn card() -> AgentCard {
    AgentCard {
        name: "langgraph_gemini_agent".to_string(),
        description: "d".to_string(),
        url: "http://localhost:8002".to_string(),
        version: "1.0.0".to_string(),
        protocol_version: "0.2.6".to_string(),
        capabilities: None,
        skills: vec![],
    }
}

#[test]
fn resolve_registers_or_reports() {
    let mut srv = A2aServer::new(A2aStore::new());
    let agent = srv
        .resolve_agent_card(ResolveAgentCardInput { base_url: "http://localhost:8002".to_string() }, Ok(card()))
        .unwrap();
    assert_eq!(agent.base_url, "http://localhost:8002");
    assert_eq!(srv.list_remote_agents().len(), 1);
    let err = srv
        .resolve_agent_card(
            ResolveAgentCardInput { base_url: "http://x".to_string() },
            Err("No agent card found at http://x".to_string()),
        )
        .unwrap_err();
    assert_eq!(err, "Failed to resolve agent card: No agent card found at http://x");
    assert_eq!(srv.list_remote_agents().len(), 1);
}

#[test]
fn validate_reports_failure() {
    let e = A2aServer::validate_agent_card(Err("No agent card found at http://x".to_string())).unwrap_err();
    assert_eq!(e, "Validation failed: No agent card found at http://x");
    let rep = A2aServer::validate_agent_card(Ok(card())).unwrap();
    assert_eq!(rep.validation, "warnings");
}

#[test]
fn message_round_trip() {
    let mut srv = A2aServer::new(A2aStore::new());
    let agent = srv
        .resolve_agent_card(ResolveAgentCardInput { base_url: "http://localhost:8002".to_string() }, Ok(card()))
        .unwrap();
    let input = SendMessageInput { agent_id: agent.agent_id.clone(), text: "Capital of France?".to_string() };
    let out = srv.send_message_request(&input).unwrap();
    assert_eq!(out.url, "http://localhost:8002");
    let body = reply("t-9", "submitted");
    let task = srv.record_message_reply(&input.text, &out.message_id, &body).unwrap();
    assert_eq!(task.history.as_ref().unwrap()[0].message_id.as_deref(), Some(out.message_id.as_str()));
    let got = srv.get_task(&GetTaskInput { task_id: "t-9".to_string() }).unwrap();
    assert_eq!(got.status.state, TaskState::Submitted);
    let start = A2aServer::streaming_started(&task);
    assert_eq!(start.task_id, "t-9");
    assert!(start.streaming);
    assert_eq!(start.message, "Task started. Use subscribe_to_task for streaming updates.");
    let sinput = SendStreamingMessageInput { agent_id: "agent_x".to_string(), text: "t".to_string() };
    let e = srv.streaming_message_request(&sinput).err().unwrap();
    assert_eq!(A2aServer::error_text(&e), "Error: Agent not found: agent_x");
}

#[test]
fn get_task_not_found() {
    let srv = A2aServer::new(A2aStore::new());
    assert_eq!(srv.get_task(&GetTaskInput { task_id: "zz".to_string() }).unwrap_err(), "Task not found: zz");
}

#[test]
fn list_tasks_with_limit() {
    let mut srv = A2aServer::new(A2aStore::new());
    for id in ["a", "b", "c"] {
        srv.record_message_reply("x", "m", &reply(id, "completed")).unwrap();
    }
    let ids = |v: Vec<mcp_a2a::types::Task>| v.into_iter().map(|t| t.id).collect::<Vec<_>>();
    assert_eq!(ids(srv.list_tasks(&ListTasksInput { limit: None })), vec!["c", "b", "a"]);
    assert_eq!(ids(srv.list_tasks(&ListTasksInput { limit: Some(2) })), vec!["c", "b"]);
    assert_eq!(ids(srv.list_tasks(&ListTasksInput { limit: Some(0) })), Vec::<String>::new());
    assert_eq!(ids(srv.list_tasks(&ListTasksInput { limit: Some(10) })), vec!["c", "b", "a"]);
}

#[test]
fn cancel_and_subscribe() {
    let mut srv = A2aServer::new(A2aStore::new());
    srv.record_message_reply("x", "m", &reply("t-1", "working")).unwrap();
    let sub = srv.subscribe_to_task(&SubscribeToTaskInput { task_id: "t-1".to_string() }).unwrap();
    assert_eq!(sub.current_state, TaskState::Working);
    assert_eq!(sub.subscription, "active");
    assert_eq!(
        sub.message,
        "Subscribed to task events. Updates will be delivered via push notifications if configured."
    );
    let ack = srv.cancel_task(&CancelTaskInput { task_id: "t-1".to_string() }).unwrap();
    assert_eq!(ack.task_id, "t-1");
    assert_eq!(ack.status, "canceled");
    let sub = srv.subscribe_to_task(&SubscribeToTaskInput { task_id: "t-1".to_string() }).unwrap();
    assert_eq!(sub.current_state, TaskState::Canceled);
    assert_eq!(
        srv.cancel_task(&CancelTaskInput { task_id: "t-2".to_string() }).unwrap_err(),
        "Error: Task not found: t-2"
    );
    assert_eq!(
        srv.subscribe_to_task(&SubscribeToTaskInput { task_id: "t-2".to_string() }).unwrap_err(),
        "Task not found: t-2"
    );
}

#[test]
fn push_config_default_events() {
    let mut srv = A2aServer::new(A2aStore::new());
    let c = srv.configure_push_notifications(ConfigurePushNotificationsInput {
        agent_id: "agent_1".to_string(),
        webhook_url: "https://hooks.example.com/a2a".to_string(),
        events: None,
    });
    assert_eq!(c.events, vec!["status_update".to_string(), "artifact_update".to_string()]);
    assert!(c.active);
    let c = srv.configure_push_notifications(ConfigurePushNotificationsInput {
        agent_id: "agent_1".to_string(),
        webhook_url: "https://hooks.example.com/a2a".to_string(),
        events: Some(vec!["status_update".to_string()]),
    });
    assert_eq!(c.events, vec!["status_update".to_string()]);
    // the same agent and webhook: the config is updated, not added
    assert_eq!(srv.store.list_push_configs().len(), 1);
}

#[test]
fn extended_card() {
    let mut srv = A2aServer::new(A2aStore::new());
    let agent = srv
        .resolve_agent_card(ResolveAgentCardInput { base_url: "http://localhost:8002".to_string() }, Ok(card()))
        .unwrap();
    let got = srv.get_extended_agent_card(&GetExtendedAgentCardInput { agent_id: agent.agent_id.clone() }).unwrap();
    assert_eq!(got.card.unwrap().name, "langgraph_gemini_agent");
    assert_eq!(
        srv.get_extended_agent_card(&GetExtendedAgentCardInput { agent_id: "agent_0".to_string() }).unwrap_err(),
        "Agent not found: agent_0"
    );
}
