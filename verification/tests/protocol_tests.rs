use mcp_a2a::json::{to_json_text, JsonValue};
use mcp_a2a::protocol::{parse_state, send_request, task_from_reply};
use mcp_a2a::types::{Part, Task, TaskState};

fn s(x: &str) -> JsonValue {
    JsonValue::String(x.to_string())
}

fn obj(pairs: Vec<(&str, JsonValue)>) -> JsonValue {
    JsonValue::Object(pairs.into_iter().map(|(k, v)| (k.to_string(), v)).collect())
}

fn arr(items: Vec<JsonValue>) -> JsonValue {
    JsonValue::Array(items)
}

fn text_part(t: &str) -> JsonValue {
    obj(vec![("kind", s("text")), ("text", s(t))])
}

fn texts(task: &Task) -> Vec<(String, String)> {
    task.history
        .as_ref()
        .unwrap()
        .iter()
        .map(|m| {
            let Part::Text { text } = &m.parts[0];
            (m.role.clone(), text.clone())
        })
        .collect()
}

#[test]
fn artifact_reply_becomes_agent_message() {
    let body = obj(vec![
        ("jsonrpc", s("2.0")),
        (
            "result",
            obj(vec![
                ("id", s("task-uuid")),
                ("status", obj(vec![("state", s("completed"))])),
                ("artifacts", arr(vec![obj(vec![("parts", arr(vec![text_part("The capital of Kenya is Nairobi.")]))])])),
            ]),
        ),
        ("id", s("request-uuid")),
    ]);
    let task = task_from_reply(&body, "What is the capital of Kenya?", "m-1").unwrap();
    assert_eq!(task.id, "task-uuid");
    assert_eq!(task.status.state, TaskState::Completed);
    assert_eq!(task.status.message, None);
    assert_eq!(
        texts(&task),
        vec![
            ("user".to_string(), "What is the capital of Kenya?".to_string()),
            ("agent".to_string(), "The capital of Kenya is Nairobi.".to_string()),
        ]
    );
    let arts = task.artifacts.as_ref().unwrap();
    assert_eq!(arts.len(), 1);
    assert_eq!(arts[0].parts.len(), 1);
    let Part::Text { text } = &arts[0].parts[0];
    assert_eq!(text, "The capital of Kenya is Nairobi.");
    let h = task.history.as_ref().unwrap();
    assert_eq!(h[0].message_id.as_deref(), Some("m-1"));
    assert_eq!(h[0].task_id.as_deref(), Some("task-uuid"));
    assert_eq!(h[1].message_id, None);
    assert_eq!(h[1].task_id.as_deref(), Some("task-uuid"));
}

#[test]
fn history_reply_takes_first_agent_text() {
    let body = obj(vec![(
        "result",
        obj(vec![
            ("id", s("t-2")),
            ("contextId", s("ctx-9")),
            ("status", obj(vec![("state", s("completed"))])),
            (
                "history",
                arr(vec![
                    obj(vec![("role", s("user")), ("parts", arr(vec![text_part("What is the capital of France?")]))]),
                    obj(vec![
                        ("role", s("agent")),
                        ("messageId", s("a-1")),
                        ("parts", arr(vec![text_part(""), text_part("The capital of France is Paris."), text_part("ignored")])),
                    ]),
                    obj(vec![("role", s("agent")), ("parts", arr(vec![text_part("also ignored")]))]),
                ]),
            ),
        ]),
    )]);
    let task = task_from_reply(&body, "What is the capital of France?", "m-2").unwrap();
    assert_eq!(task.context_id.as_deref(), Some("ctx-9"));
    assert_eq!(
        texts(&task),
        vec![
            ("user".to_string(), "What is the capital of France?".to_string()),
            ("agent".to_string(), "The capital of France is Paris.".to_string()),
        ]
    );
    assert_eq!(task.history.as_ref().unwrap()[1].message_id.as_deref(), Some("a-1"));
}

#[test]
fn artifacts_take_precedence_over_history() {
    let body = obj(vec![(
        "result",
        obj(vec![
            ("id", s("t-3")),
            (
                "artifacts",
                arr(vec![
                    obj(vec![("parts", arr(vec![text_part("one"), text_part("two")]))]),
                    obj(vec![("parts", s("not an array"))]),
                    obj(vec![("parts", arr(vec![text_part("three")]))]),
                ]),
            ),
            ("history", arr(vec![obj(vec![("role", s("agent")), ("parts", arr(vec![text_part("from history")]))])])),
        ]),
    )]);
    let task = task_from_reply(&body, "hi", "m").unwrap();
    let got: Vec<String> = texts(&task).into_iter().map(|(_, t)| t).collect();
    assert_eq!(got, vec!["hi", "one", "two", "three"]);
}

#[test]
fn status_message_used_when_nothing_else() {
    let body = obj(vec![(
        "result",
        obj(vec![
            ("taskId", s("t-4")),
            (
                "status",
                obj(vec![
                    ("state", s("input-required")),
                    ("message", obj(vec![("parts", arr(vec![text_part("Which city?")]))])),
                ]),
            ),
        ]),
    )]);
    let task = task_from_reply(&body, "weather", "m").unwrap();
    assert_eq!(task.id, "t-4");
    assert_eq!(task.status.state, TaskState::InputRequired);
    assert_eq!(
        texts(&task),
        vec![("user".to_string(), "weather".to_string()), ("agent".to_string(), "Which city?".to_string())]
    );
}

#[test]
fn missing_result_gives_unknown_completed_task() {
    let body = obj(vec![("jsonrpc", s("2.0"))]);
    let task = task_from_reply(&body, "x", "m").unwrap();
    assert_eq!(task.id, "unknown");
    assert_eq!(task.status.state, TaskState::Completed);
    assert_eq!(task.context_id, None);
    assert_eq!(task.history.as_ref().unwrap().len(), 1);
}

#[test]
fn error_member_is_returned() {
    let err = obj(vec![("code", JsonValue::Number("-32600".to_string())), ("message", s("bad"))]);
    let body = obj(vec![("error", err), ("result", obj(vec![("id", s("t"))]))]);
    match task_from_reply(&body, "x", "m") {
        Err(JsonValue::Object(e)) => assert_eq!(e[1].0, "message"),
        _ => panic!("expected the error member"),
    }
    let null_error = obj(vec![("error", JsonValue::Null)]);
    assert!(matches!(task_from_reply(&null_error, "x", "m"), Err(JsonValue::Null)));
}

#[test]
fn state_names() {
    assert_eq!(parse_state("submitted"), TaskState::Submitted);
    assert_eq!(parse_state("working"), TaskState::Working);
    assert_eq!(parse_state("input_required"), TaskState::InputRequired);
    assert_eq!(parse_state("input-required"), TaskState::InputRequired);
    assert_eq!(parse_state("failed"), TaskState::Failed);
    assert_eq!(parse_state("canceled"), TaskState::Canceled);
    assert_eq!(parse_state("completed"), TaskState::Completed);
    assert_eq!(parse_state("rejected"), TaskState::Completed);
}

#[test]
fn send_request_shape() {
    let r = send_request("user input", "uuid-1");
    let JsonValue::Object(e) = &r else { panic!() };
    let keys: Vec<&str> = e.iter().map(|(k, _)| k.as_str()).collect();
    assert_eq!(keys, vec!["jsonrpc", "method", "params", "id"]);
    assert!(matches!(&e[0].1, JsonValue::String(v) if v == "2.0"));
    assert!(matches!(&e[1].1, JsonValue::String(v) if v == "message/send"));
    assert!(matches!(&e[3].1, JsonValue::String(v) if v == "uuid-1"));
    let message = e[2].1.get("message").unwrap();
    assert!(matches!(message.get("role"), Some(JsonValue::String(v)) if v == "user"));
    assert!(matches!(message.get("messageId"), Some(JsonValue::String(v)) if v == "uuid-1"));
    let Some(JsonValue::Array(parts)) = message.get("parts") else { panic!() };
    assert_eq!(parts.len(), 1);
    let JsonValue::Object(pe) = &parts[0] else { panic!() };
    assert_eq!(pe.len(), 2);
    assert!(matches!(parts[0].get("kind"), Some(JsonValue::String(v)) if v == "text"));
    assert!(matches!(parts[0].get("text"), Some(JsonValue::String(v)) if v == "user input"));
}

#[test]
fn artifacts_keep_ids_names_and_text_parts() {
    let body = obj(vec![(
        "result",
        obj(vec![
            ("id", s("t-5")),
            (
                "artifacts",
                arr(vec![
                    obj(vec![
                        ("artifactId", s("a-1")),
                        ("name", s("answer")),
                        ("parts", arr(vec![text_part(""), obj(vec![("kind", s("file"))]), text_part("x")])),
                    ]),
                    obj(vec![("parts", s("not an array"))]),
                ]),
            ),
        ]),
    )]);
    let task = task_from_reply(&body, "q", "m").unwrap();
    let arts = task.artifacts.unwrap();
    assert_eq!(arts.len(), 2);
    assert_eq!(arts[0].artifact_id.as_deref(), Some("a-1"));
    assert_eq!(arts[0].name.as_deref(), Some("answer"));
    let texts: Vec<&str> = arts[0].parts.iter().map(|p| match p { Part::Text { text } => text.as_str() }).collect();
    assert_eq!(texts, vec!["", "x"]);
    assert!(arts[1].parts.is_empty());
    assert_eq!(arts[1].artifact_id, None);
    // a reply without artifacts gives a task without them
    let none = task_from_reply(&obj(vec![("result", obj(vec![("id", s("t"))]))]), "q", "m").unwrap();
    assert!(none.artifacts.is_none());
}

#[test]
fn compact_json_text() {
    let v = obj(vec![
        ("code", JsonValue::Number("-32600".to_string())),
        ("message", s("bad \"x\" \\ /\n\t\u{1}é")),
        ("data", arr(vec![JsonValue::Null, JsonValue::Bool(true), JsonValue::Bool(false), arr(vec![]), obj(vec![])])),
    ]);
    assert_eq!(
        to_json_text(&v),
        "{\"code\":-32600,\"message\":\"bad \\\"x\\\" \\\\ /\\n\\t\\u0001é\",\"data\":[null,true,false,[],{}]}"
    );
    assert_eq!(to_json_text(&s("\u{8}\u{c}\r\u{1f}")), "\"\\b\\f\\r\\u001f\"");
}
