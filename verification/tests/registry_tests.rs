use mcp_a2a::json::JsonValue;
use mcp_a2a::store::A2aStore;
use mcp_a2a::types::{AgentCapabilities, AgentCard, AgentSkill, TaskState};

fn s(x: &str) -> JsonValue {
    JsonValue::String(x.to_string())
}

fn obj(pairs: Vec<(&str, JsonValue)>) -> JsonValue {
    JsonValue::Object(pairs.into_iter().map(|(k, v)| (k.to_string(), v)).collect())
}

fn reply(task_id: &str, state: &str) -> JsonValue {
    obj(vec![("result", obj(vec![("id", s(task_id)), ("status", obj(vec![("state", s(state))]))]))])
}

fn card(name: &str, url: &str) -> AgentCard {
    AgentCard {
        name: name.to_string(),
        description: "A minimal A2A-capable AI assistant".to_string(),
        url: url.to_string(),
        version: "1.0.0".to_string(),
        protocol_version: "0.2.6".to_string(),
        capabilities: Some(AgentCapabilities { streaming: false, push_notifications: false, state_transition_history: false }),
        skills: vec![AgentSkill {
            id: "general".to_string(),
            name: "General Assistant".to_string(),
            description: "Answer questions".to_string(),
            tags: vec!["reasoning".to_string()],
        }],
    }
}

fn is_lower_hex(t: &str) -> bool {
    t.chars().all(|c| c.is_ascii_digit() || ('a'..='f').contains(&c))
}

#[test]
fn new_store_is_empty() {
    let store = A2aStore::new();
    assert!(store.list_agents().is_empty());
    assert!(store.list_tasks().is_empty());
    assert!(store.list_push_configs().is_empty());
}

#[test]
fn register_agent_records_connected_agent() {
    let mut store = A2aStore::new();
    let agent = store.register_agent("http://localhost:8003".to_string(), card("a2a-quickstart-agent", "http://localhost:8003/a2a"));
    assert!(agent.agent_id.starts_with("agent_"));
    let hex = &agent.agent_id["agent_".len()..];
    assert_eq!(hex.len(), 32);
    assert!(is_lower_hex(hex));
    // version nibble of a v4 UUID
    assert_eq!(&hex[12..13], "4");
    assert_eq!(agent.name, "a2a-quickstart-agent");
    assert_eq!(agent.base_url, "http://localhost:8003");
    assert_eq!(agent.status, "connected");
    assert_eq!(agent.auth_mode, None);
    let seen = agent.last_seen_at.unwrap();
    // both times come from the clock: after 2020, with less than a second of nanoseconds
    assert!(seen.secs > 1_577_836_800 && seen.nanos < 1_000_000_000);
    assert!(agent.created_at.secs >= seen.secs);
    assert_eq!(agent.card.as_ref().unwrap().url, "http://localhost:8003/a2a");
    let listed = store.list_agents();
    assert_eq!(listed.len(), 1);
    assert_eq!(listed[0].agent_id, agent.agent_id);
    let found = store.find_agent(&agent.agent_id).unwrap();
    assert_eq!(found.name, agent.name);
    assert!(store.find_agent("agent_missing").is_none());
}

#[test]
fn registered_agents_get_distinct_ids() {
    let mut store = A2aStore::new();
    let a = store.register_agent("http://localhost:8001".to_string(), card("helper_agent", "http://localhost:8001"));
    let b = store.register_agent("http://localhost:8002".to_string(), card("langgraph_gemini_agent", "http://localhost:8002"));
    assert_ne!(a.agent_id, b.agent_id);
    let ids: Vec<String> = store.list_agents().into_iter().map(|x| x.agent_id).collect();
    assert_eq!(ids, vec![a.agent_id, b.agent_id]);
}

#[test]
fn prepare_message_addresses_the_card_url() {
    let mut store = A2aStore::new();
    let agent = store.register_agent("http://localhost:8003".to_string(), card("a", "http://localhost:8003/a2a"));
    let out = store.prepare_message(&agent.agent_id, "What is 2+2?").unwrap();
    assert_eq!(out.url, "http://localhost:8003/a2a");
    assert_eq!(out.message_id.len(), 36);
    for i in [8, 13, 18, 23] {
        assert_eq!(&out.message_id[i..i + 1], "-");
    }
    assert!(is_lower_hex(&out.message_id.replace('-', "")));
    assert!(matches!(out.request.get("id"), Some(JsonValue::String(v)) if *v == out.message_id));
    let other = store.prepare_message(&agent.agent_id, "again").unwrap();
    assert_ne!(other.message_id, out.message_id);
}

#[test]
fn prepare_message_unknown_agent() {
    let store = A2aStore::new();
    match store.prepare_message("agent_nope", "hi") {
        Err(e) => assert_eq!(e, "Agent not found: agent_nope"),
        Ok(_) => panic!("expected an error"),
    }
}

#[test]
fn recorded_task_is_found_and_listed_first() {
    let mut store = A2aStore::new();
    let b1 = reply("t-1", "working");
    let b2 = reply("t-2", "completed");
    let t1 = store.record_reply(&b1, "one", "m1").unwrap();
    let t2 = store.record_reply(&b2, "two", "m2").unwrap();
    assert_eq!(t1.status.state, TaskState::Working);
    assert_eq!(store.get_task("t-1").unwrap().status.state, TaskState::Working);
    assert_eq!(store.get_task("t-2").unwrap().id, t2.id);
    assert!(store.get_task("t-3").is_none());
    let ids: Vec<String> = store.list_tasks().into_iter().map(|t| t.id).collect();
    assert_eq!(ids, vec!["t-2", "t-1"]);
}

#[test]
fn rewriting_a_task_replaces_it_and_makes_it_most_recent() {
    let mut store = A2aStore::new();
    store.record_reply(&reply("t-1", "working"), "one", "m1").unwrap();
    store.record_reply(&reply("t-2", "working"), "two", "m2").unwrap();
    store.record_reply(&reply("t-1", "failed"), "three", "m3").unwrap();
    let tasks = store.list_tasks();
    let ids: Vec<&str> = tasks.iter().map(|t| t.id.as_str()).collect();
    assert_eq!(ids, vec!["t-1", "t-2"]);
    assert_eq!(tasks[0].status.state, TaskState::Failed);
}

#[test]
fn rpc_error_records_nothing() {
    let mut store = A2aStore::new();
    let body = obj(vec![("error", obj(vec![("code", JsonValue::Number("-32601".to_string())), ("message", s("boom"))]))]);
    assert_eq!(store.record_reply(&body, "x", "m").unwrap_err(), "RPC error: {\"code\":-32601,\"message\":\"boom\"}");
    let null_error = obj(vec![("error", JsonValue::Null)]);
    assert_eq!(store.record_reply(&null_error, "x", "m").unwrap_err(), "RPC error: null");
    assert!(store.list_tasks().is_empty());
}

#[test]
fn cancel_task_marks_it_canceled() {
    let mut store = A2aStore::new();
    store.record_reply(&reply("t-1", "working"), "one", "m1").unwrap();
    store.record_reply(&reply("t-2", "working"), "two", "m2").unwrap();
    assert_eq!(store.cancel_task("t-1"), Ok(()));
    let t1 = store.get_task("t-1").unwrap();
    assert_eq!(t1.status.state, TaskState::Canceled);
    assert_eq!(t1.status.message.as_deref(), Some("Canceled by operator"));
    assert_eq!(t1.history.as_ref().unwrap().len(), 1);
    assert_eq!(store.get_task("t-2").unwrap().status.state, TaskState::Working);
    // the order of the list does not change
    let ids: Vec<String> = store.list_tasks().into_iter().map(|t| t.id).collect();
    assert_eq!(ids, vec!["t-2", "t-1"]);
}

#[test]
fn cancel_unknown_task() {
    let mut store = A2aStore::new();
    assert_eq!(store.cancel_task("nope"), Err("Task not found: nope".to_string()));
}

#[test]
fn push_configs_are_kept_in_order() {
    let mut store = A2aStore::new();
    let c1 = store.add_push_config("agent_1".to_string(), "https://hooks.example.com/a2a".to_string(), vec!["status_update".to_string()]);
    let c2 = store.add_push_config("agent_2".to_string(), "https://hooks.example.com/b".to_string(), vec![]);
    assert!(c2.config_id.starts_with("push_"));
    assert!(c1.config_id.starts_with("push_"));
    assert_eq!(c1.config_id.len(), "push_".len() + 32);
    assert!(c1.active);
    assert_eq!(c1.events, vec!["status_update".to_string()]);
    assert_ne!(c1.config_id, c2.config_id);
    let all = store.list_push_configs();
    assert_eq!(all.len(), 2);
    assert_eq!(all[0].config_id, c1.config_id);
    assert_eq!(all[1].webhook_url, "https://hooks.example.com/b");
}

#[test]
fn cancel_twice_is_cancel_once() {
    let mut store = A2aStore::new();
    store.record_reply(&reply("t-1", "working"), "one", "m1").unwrap();
    assert_eq!(store.cancel_task("t-1"), Ok(()));
    assert_eq!(store.cancel_task("t-1"), Ok(()));
    let t = store.get_task("t-1").unwrap();
    assert_eq!(t.status.state, TaskState::Canceled);
    assert_eq!(t.status.message.as_deref(), Some("Canceled by operator"));
    assert_eq!(store.list_tasks().len(), 1);
}

#[test]
fn push_config_for_same_agent_and_webhook_is_updated() {
    let mut store = A2aStore::new();
    let c1 = store.add_push_config("agent_1".to_string(), "https://h/a".to_string(), vec!["status_update".to_string()]);
    let other = store.add_push_config("agent_1".to_string(), "https://h/b".to_string(), vec![]);
    let c2 = store.add_push_config("agent_1".to_string(), "https://h/a".to_string(), vec!["artifact_update".to_string()]);
    assert_eq!(c2.config_id, c1.config_id);
    assert_eq!(c2.created_at, c1.created_at);
    assert_eq!(c2.events, vec!["artifact_update".to_string()]);
    let all = store.list_push_configs();
    assert_eq!(all.len(), 2);
    assert_eq!(all[0].config_id, c1.config_id);
    assert_eq!(all[0].events, vec!["artifact_update".to_string()]);
    assert_eq!(all[1].config_id, other.config_id);
}
