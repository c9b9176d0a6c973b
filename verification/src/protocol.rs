//! The JSON-RPC exchange with a remote agent: the `message/send` request and
//! the task that a reply describes.

use vstd::prelude::*;

use crate::json::{as_items, as_text, is_object, member_of, or_null, JsonValue};
use crate::text::same_text;
use crate::types::{
    artifacts_view, messages_view, parts_view, Artifact, ArtifactView, Message, MessageView, Part,
    PartView, StatusView, Task, TaskState, TaskStatus, TaskView,
};

verus! {

// ----- the request -----

/// The members of an object, in order; none for any other value.
pub open spec fn entries_of(v: JsonValue) -> Seq<(String, JsonValue)> {
    match v {
        JsonValue::Object(e) => e@,
        _ => Seq::empty(),
    }
}

/// `v` is the text part `{"kind": "text", "text": text}`.
pub open spec fn is_text_part(v: JsonValue, text: Seq<char>) -> bool {
    let e = entries_of(v);
    &&& v is Object
    &&& e.len() == 2
    &&& e[0].0@ == "kind"@ && e[0].1.text() == Some("text"@)
    &&& e[1].0@ == "text"@ && e[1].1.text() == Some(text)
}

/// `v` is `{"message": {"role": "user", "parts": [{"kind": "text", "text": text}], "messageId": message_id}}`.
pub open spec fn is_send_params(v: JsonValue, text: Seq<char>, message_id: Seq<char>) -> bool {
    let e = entries_of(v);
    let m = e[0].1;
    let me = entries_of(m);
    &&& v is Object
    &&& e.len() == 1
    &&& e[0].0@ == "message"@
    &&& m is Object
    &&& me.len() == 3
    &&& me[0].0@ == "role"@ && me[0].1.text() == Some("user"@)
    &&& me[1].0@ == "parts"@
    &&& (me[1].1.items() matches Some(ps) && ps.len() == 1 && is_text_part(ps[0], text))
    &&& me[2].0@ == "messageId"@ && me[2].1.text() == Some(message_id)
}

/// `v` is the JSON-RPC 2.0 request
/// `{"jsonrpc": "2.0", "method": "message/send", "params": .., "id": message_id}`
/// that sends the user's `text` as message `message_id`.
pub open spec fn is_send_request(v: JsonValue, text: Seq<char>, message_id: Seq<char>) -> bool {
    let e = entries_of(v);
    &&& v is Object
    &&& e.len() == 4
    &&& e[0].0@ == "jsonrpc"@ && e[0].1.text() == Some("2.0"@)
    &&& e[1].0@ == "method"@ && e[1].1.text() == Some("message/send"@)
    &&& e[2].0@ == "params"@ && is_send_params(e[2].1, text, message_id)
    &&& e[3].0@ == "id"@ && e[3].1.text() == Some(message_id)
}

fn json_string(s: &str) -> (r: JsonValue)
    ensures
        r.text() == Some(s@),
{
    JsonValue::String(s.to_owned())
}

/// The `message/send` request that carries `text` as the user message `message_id`;
/// the message id doubles as the request id.
pub fn send_request(text: &str, message_id: &str) -> (r: JsonValue)
    ensures
        is_send_request(r, text@, message_id@),
{
    let mut part_entries: Vec<(String, JsonValue)> = Vec::new();
    part_entries.push(("kind".to_owned(), json_string("text")));
    part_entries.push(("text".to_owned(), json_string(text)));
    let mut parts: Vec<JsonValue> = Vec::new();
    parts.push(JsonValue::Object(part_entries));
    let mut message: Vec<(String, JsonValue)> = Vec::new();
    message.push(("role".to_owned(), json_string("user")));
    message.push(("parts".to_owned(), JsonValue::Array(parts)));
    message.push(("messageId".to_owned(), json_string(message_id)));
    let mut params: Vec<(String, JsonValue)> = Vec::new();
    params.push(("message".to_owned(), JsonValue::Object(message)));
    let mut request: Vec<(String, JsonValue)> = Vec::new();
    request.push(("jsonrpc".to_owned(), json_string("2.0")));
    request.push(("method".to_owned(), json_string("message/send")));
    request.push(("params".to_owned(), JsonValue::Object(params)));
    request.push(("id".to_owned(), json_string(message_id)));
    JsonValue::Object(request)
}


// ----- the reply -----

/// The elements of an array; none for any other value.
pub open spec fn items_of(v: JsonValue) -> Seq<JsonValue> {
    match v.items() {
        Some(a) => a,
        None => Seq::empty(),
    }
}

/// The `parts` of a message or an artifact (none where that is no array).
pub open spec fn parts_of(v: JsonValue) -> Seq<JsonValue> {
    items_of(v.member("parts"@))
}

/// The text of a part: its `text` member where that is a string, else empty.
pub open spec fn part_text(part: JsonValue) -> Seq<char> {
    match part.member("text"@).text() {
        Some(t) => t,
        None => Seq::empty(),
    }
}

/// The non-empty texts of `parts`, in order.
pub open spec fn part_texts(parts: Seq<JsonValue>) -> Seq<Seq<char>>
    decreases parts.len(),
{
    if parts.len() == 0 {
        Seq::empty()
    } else {
        let rest = part_texts(parts.drop_last());
        let t = part_text(parts.last());
        if t.len() > 0 {
            rest.push(t)
        } else {
            rest
        }
    }
}

/// The non-empty part texts of all `artifacts`, artifact by artifact.
pub open spec fn artifact_texts(artifacts: Seq<JsonValue>) -> Seq<Seq<char>>
    decreases artifacts.len(),
{
    if artifacts.len() == 0 {
        Seq::empty()
    } else {
        artifact_texts(artifacts.drop_last()) + part_texts(parts_of(artifacts.last()))
    }
}

/// The first non-empty text among `parts`.
pub open spec fn first_text(parts: Seq<JsonValue>) -> Option<Seq<char>>
    decreases parts.len(),
{
    if parts.len() == 0 {
        None
    } else if part_text(parts[0]).len() > 0 {
        Some(part_text(parts[0]))
    } else {
        first_text(parts.drop_first())
    }
}

/// The first non-empty text of a message of role `agent` in `history`, with the
/// `messageId` of that message.
pub open spec fn first_agent_text(history: Seq<JsonValue>) -> Option<(Seq<char>, Option<Seq<char>>)>
    decreases history.len(),
{
    if history.len() == 0 {
        None
    } else {
        let m = history[0];
        let t = if m.member("role"@).text() == Some("agent"@) {
            first_text(parts_of(m))
        } else {
            None
        };
        match t {
            Some(x) => Some((x, m.member("messageId"@).text())),
            None => first_agent_text(history.drop_first()),
        }
    }
}

/// The first non-empty text of the message in the reply's `status`, where that is an object.
pub open spec fn status_text(result: JsonValue) -> Option<Seq<char>> {
    let m = result.member("status"@).member("message"@);
    if m is Object {
        first_text(parts_of(m))
    } else {
        None
    }
}

/// The message the user sent.
pub open spec fn user_message(text: Seq<char>, message_id: Seq<char>, task_id: Seq<char>) -> MessageView {
    MessageView {
        role: "user"@,
        parts: seq![PartView::Text { text }],
        message_id: Some(message_id),
        task_id: Some(task_id),
    }
}

/// A message of the remote agent.
pub open spec fn agent_message(text: Seq<char>, message_id: Option<Seq<char>>, task_id: Seq<char>) -> MessageView {
    MessageView {
        role: "agent"@,
        parts: seq![PartView::Text { text }],
        message_id,
        task_id: Some(task_id),
    }
}

/// One agent message, without a message id, per text.
pub open spec fn agent_messages(texts: Seq<Seq<char>>, task_id: Seq<char>) -> Seq<MessageView> {
    texts.map_values(|t: Seq<char>| agent_message(t, None, task_id))
}

/// The agent's answer in a reply's `result`: one message per non-empty artifact
/// text; where there is none, the first non-empty text of an agent message in
/// `history`; where there is none either, the first non-empty text of the
/// status message.
pub open spec fn answer_messages(result: JsonValue, task_id: Seq<char>) -> Seq<MessageView> {
    let arts = artifact_texts(items_of(result.member("artifacts"@)));
    if arts.len() > 0 {
        agent_messages(arts, task_id)
    } else {
        match first_agent_text(items_of(result.member("history"@))) {
            Some(p) => seq![agent_message(p.0, p.1, task_id)],
            None => match status_text(result) {
                Some(t) => seq![agent_message(t, None, task_id)],
                None => Seq::empty(),
            },
        }
    }
}

/// The task id of a reply's `result`: its `id`, else its `taskId`, else "unknown".
pub open spec fn reply_task_id(result: JsonValue) -> Seq<char> {
    match result.member("id"@).text() {
        Some(t) => t,
        None => match result.member("taskId"@).text() {
            Some(t) => t,
            None => "unknown"@,
        },
    }
}

/// The task state a state name stands for; any other name stands for `Completed`.
pub open spec fn state_named(s: Seq<char>) -> TaskState {
    if s == "submitted"@ {
        TaskState::Submitted
    } else if s == "working"@ {
        TaskState::Working
    } else if s == "input_required"@ || s == "input-required"@ {
        TaskState::InputRequired
    } else if s == "failed"@ {
        TaskState::Failed
    } else if s == "canceled"@ {
        TaskState::Canceled
    } else {
        TaskState::Completed
    }
}

/// The state of a reply's `result`: its `status.state`, `Completed` where there is none.
pub open spec fn reply_state(result: JsonValue) -> TaskState {
    match result.member("status"@).member("state"@).text() {
        Some(s) => state_named(s),
        None => TaskState::Completed,
    }
}

/// The text parts among `parts`: each part whose `text` member is a string, with that text.
pub open spec fn text_parts(parts: Seq<JsonValue>) -> Seq<PartView>
    decreases parts.len(),
{
    if parts.len() == 0 {
        Seq::empty()
    } else {
        let rest = text_parts(parts.drop_last());
        match parts.last().member("text"@).text() {
            Some(t) => rest.push(PartView::Text { text: t }),
            None => rest,
        }
    }
}

/// The artifact that an element of a reply's `artifacts` describes: its
/// `artifactId`, its `name`, and its text parts.
pub open spec fn reply_artifact(a: JsonValue) -> ArtifactView {
    ArtifactView {
        artifact_id: a.member("artifactId"@).text(),
        name: a.member("name"@).text(),
        parts: text_parts(parts_of(a)),
    }
}

/// The artifacts of a reply's `result`, where it has an `artifacts` array.
pub open spec fn reply_artifacts(result: JsonValue) -> Option<Seq<ArtifactView>> {
    match result.member("artifacts"@).items() {
        Some(a) => Some(a.map_values(|x: JsonValue| reply_artifact(x))),
        None => None,
    }
}

/// The task that a reply `body` describes, for the user message `text` sent as `message_id`.
pub open spec fn reply_task(body: JsonValue, text: Seq<char>, message_id: Seq<char>) -> TaskView {
    let result = body.member("result"@);
    let id = reply_task_id(result);
    TaskView {
        id,
        context_id: result.member("contextId"@).text(),
        status: StatusView { state: reply_state(result), message: None },
        history: Some(seq![user_message(text, message_id, id)] + answer_messages(result, id)),
        artifacts: reply_artifacts(result),
    }
}

/// The task state a state name stands for.
pub fn parse_state(s: &str) -> (r: TaskState)
    ensures
        r == state_named(s@),
{
    if same_text(s, "submitted") {
        TaskState::Submitted
    } else if same_text(s, "working") {
        TaskState::Working
    } else if same_text(s, "input_required") || same_text(s, "input-required") {
        TaskState::InputRequired
    } else if same_text(s, "failed") {
        TaskState::Failed
    } else if same_text(s, "canceled") {
        TaskState::Canceled
    } else {
        TaskState::Completed
    }
}

fn text_message(role: &str, text: &str, message_id: Option<String>, task_id: &str) -> (r: Message)
    ensures
        r@ == (MessageView {
            role: role@,
            parts: seq![PartView::Text { text: text@ }],
            message_id: match message_id {
                Some(m) => Some(m@),
                None => None,
            },
            task_id: Some(task_id@),
        }),
{
    let mut parts: Vec<Part> = Vec::new();
    parts.push(Part::Text { text: text.to_owned() });
    assert(parts@.map_values(|p: Part| p@) =~= seq![PartView::Text { text: text@ }]);
    Message { role: role.to_owned(), parts, message_id, task_id: Some(task_id.to_owned()) }
}

fn part_text_of(part: &JsonValue) -> (r: &str)
    ensures
        r@ == part_text(*part),
{
    match as_text(member_of(Some(part), "text")) {
        Some(t) => t,
        None => {
            proof {
                reveal_strlit("");
            }
            ""
        },
    }
}


fn push_part_texts(parts: &Vec<JsonValue>, task_id: &str, history: &mut Vec<Message>)
    ensures
        messages_view(final(history)@) == messages_view(old(history)@) + agent_messages(
            part_texts(parts@),
            task_id@,
        ),
{
    let n = parts.len();
    let mut j: usize = 0;
    assert(messages_view(history@) =~= messages_view(history@) + agent_messages(
        part_texts(parts@.subrange(0, 0)),
        task_id@,
    ));
    while j < n
        invariant
            n == parts@.len(),
            j <= n,
            messages_view(history@) == messages_view(old(history)@) + agent_messages(
                part_texts(parts@.subrange(0, j as int)),
                task_id@,
            ),
        decreases n - j,
    {
        let ghost before = history@;
        let ghost prefix = parts@.subrange(0, j as int);
        assert(parts@.subrange(0, j + 1).drop_last() =~= prefix);
        assert(parts@.subrange(0, j + 1).last() == parts@[j as int]);
        let t = part_text_of(&parts[j]);
        if t.unicode_len() > 0 {
            let m = text_message("agent", t, None, task_id);
            history.push(m);
            assert(messages_view(history@) =~= messages_view(before).push(m@));
            assert(agent_messages(part_texts(prefix).push(t@), task_id@) =~= agent_messages(
                part_texts(prefix),
                task_id@,
            ).push(agent_message(t@, None, task_id@)));
        }
        j = j + 1;
    }
    assert(parts@.subrange(0, n as int) =~= parts@);
}

fn push_artifact_texts(artifacts: &Vec<JsonValue>, task_id: &str, history: &mut Vec<Message>)
    ensures
        messages_view(final(history)@) == messages_view(old(history)@) + agent_messages(
            artifact_texts(artifacts@),
            task_id@,
        ),
{
    let n = artifacts.len();
    let mut i: usize = 0;
    assert(messages_view(history@) =~= messages_view(history@) + agent_messages(
        artifact_texts(artifacts@.subrange(0, 0)),
        task_id@,
    ));
    while i < n
        invariant
            n == artifacts@.len(),
            i <= n,
            messages_view(history@) == messages_view(old(history)@) + agent_messages(
                artifact_texts(artifacts@.subrange(0, i as int)),
                task_id@,
            ),
        decreases n - i,
    {
        let ghost before = history@;
        let ghost prefix = artifacts@.subrange(0, i as int);
        assert(artifacts@.subrange(0, i + 1).drop_last() =~= prefix);
        assert(artifacts@.subrange(0, i + 1).last() == artifacts@[i as int]);
        let ghost texts = part_texts(parts_of(artifacts@[i as int]));
        match as_items(member_of(Some(&artifacts[i]), "parts")) {
            Some(parts) => {
                push_part_texts(parts, task_id, history);
            },
            None => {
                assert(texts =~= Seq::<Seq<char>>::empty());
            },
        }
        assert(agent_messages(artifact_texts(prefix) + texts, task_id@) =~= agent_messages(
            artifact_texts(prefix),
            task_id@,
        ) + agent_messages(texts, task_id@));
        assert(messages_view(history@) =~= messages_view(old(history)@) + agent_messages(
            artifact_texts(artifacts@.subrange(0, i + 1)),
            task_id@,
        ));
        i = i + 1;
    }
    assert(artifacts@.subrange(0, n as int) =~= artifacts@);
}

fn first_text_of(parts: &Vec<JsonValue>) -> (r: Option<&str>)
    ensures
        match r {
            Some(t) => first_text(parts@) == Some(t@),
            None => first_text(parts@) is None,
        },
{
    let n = parts.len();
    let mut i: usize = 0;
    assert(parts@.subrange(0, n as int) =~= parts@);
    while i < n
        invariant
            n == parts@.len(),
            i <= n,
            first_text(parts@.subrange(i as int, n as int)) == first_text(parts@),
        decreases n - i,
    {
        assert(parts@.subrange(i as int, n as int).drop_first() =~= parts@.subrange(
            i + 1,
            n as int,
        ));
        assert(parts@.subrange(i as int, n as int)[0] == parts@[i as int]);
        let t = part_text_of(&parts[i]);
        if t.unicode_len() > 0 {
            return Some(t);
        }
        i = i + 1;
    }
    None
}

fn first_agent_text_of(history: &Vec<JsonValue>) -> (r: Option<(&str, Option<&str>)>)
    ensures
        match r {
            Some(p) => first_agent_text(history@) == Some(
                (
                    p.0@,
                    match p.1 {
                        Some(m) => Some(m@),
                        None => None,
                    },
                ),
            ),
            None => first_agent_text(history@) is None,
        },
{
    let n = history.len();
    let mut i: usize = 0;
    assert(history@.subrange(0, n as int) =~= history@);
    while i < n
        invariant
            n == history@.len(),
            i <= n,
            first_agent_text(history@.subrange(i as int, n as int)) == first_agent_text(history@),
        decreases n - i,
    {
        assert(history@.subrange(i as int, n as int).drop_first() =~= history@.subrange(
            i + 1,
            n as int,
        ));
        assert(history@.subrange(i as int, n as int)[0] == history@[i as int]);
        let m = Some(&history[i]);
        let is_agent = match as_text(member_of(m, "role")) {
            Some(role) => same_text(role, "agent"),
            None => false,
        };
        if is_agent {
            let found = match as_items(member_of(m, "parts")) {
                Some(parts) => first_text_of(parts),
                None => None,
            };
            if let Some(t) = found {
                return Some((t, as_text(member_of(m, "messageId"))));
            }
        }
        i = i + 1;
    }
    None
}

fn text_parts_of(parts: &Vec<JsonValue>) -> (r: Vec<Part>)
    ensures
        parts_view(r@) == text_parts(parts@),
{
    let n = parts.len();
    let mut r: Vec<Part> = Vec::new();
    let mut j: usize = 0;
    assert(parts_view(r@) =~= text_parts(parts@.subrange(0, 0)));
    while j < n
        invariant
            n == parts@.len(),
            j <= n,
            parts_view(r@) == text_parts(parts@.subrange(0, j as int)),
        decreases n - j,
    {
        let ghost before = r@;
        assert(parts@.subrange(0, j + 1).drop_last() =~= parts@.subrange(0, j as int));
        assert(parts@.subrange(0, j + 1).last() == parts@[j as int]);
        match as_text(member_of(Some(&parts[j]), "text")) {
            Some(t) => {
                let p = Part::Text { text: t.to_owned() };
                r.push(p);
                assert(parts_view(r@) =~= parts_view(before).push(p@));
            },
            None => {},
        }
        j = j + 1;
    }
    assert(parts@.subrange(0, n as int) =~= parts@);
    r
}

fn artifact_from(a: &JsonValue) -> (r: Artifact)
    ensures
        r@ == reply_artifact(*a),
{
    let a = Some(a);
    let parts = match as_items(member_of(a, "parts")) {
        Some(ps) => text_parts_of(ps),
        None => {
            let v: Vec<Part> = Vec::new();
            assert(parts_view(v@) =~= Seq::<PartView>::empty());
            v
        },
    };
    let artifact_id = match as_text(member_of(a, "artifactId")) {
        Some(x) => Some(x.to_owned()),
        None => None,
    };
    let name = match as_text(member_of(a, "name")) {
        Some(x) => Some(x.to_owned()),
        None => None,
    };
    Artifact { artifact_id, name, parts }
}

fn artifacts_from(artifacts: &Vec<JsonValue>) -> (r: Vec<Artifact>)
    ensures
        artifacts_view(r@) == artifacts@.map_values(|x: JsonValue| reply_artifact(x)),
{
    let n = artifacts.len();
    let mut r: Vec<Artifact> = Vec::new();
    let mut i: usize = 0;
    while i < n
        invariant
            n == artifacts@.len(),
            i <= n,
            r@.len() == i,
            forall|k: int| 0 <= k < i ==> (#[trigger] r@[k])@ == reply_artifact(artifacts@[k]),
        decreases n - i,
    {
        let x = artifact_from(&artifacts[i]);
        r.push(x);
        i = i + 1;
    }
    assert(artifacts_view(r@) =~= artifacts@.map_values(|x: JsonValue| reply_artifact(x)));
    r
}

/// The task a reply `body` describes, for the user message `text` sent as
/// `message_id`; or, where the reply has an `error` member, that member.
pub fn task_from_reply<'a>(body: &'a JsonValue, text: &str, message_id: &str) -> (r: Result<Task, &'a JsonValue>)
    ensures
        match body.lookup("error"@) {
            Some(e) => r matches Err(x) && *x == e,
            None => r matches Ok(t) && t@ == reply_task(*body, text@, message_id@),
        },
{
    if let Some(e) = body.get("error") {
        return Err(e);
    }
    let result = member_of(Some(body), "result");
    let id: String = match as_text(member_of(result, "id")) {
        Some(t) => t.to_owned(),
        None => match as_text(member_of(result, "taskId")) {
            Some(t) => t.to_owned(),
            None => "unknown".to_owned(),
        },
    };
    let status = member_of(result, "status");
    let state = match as_text(member_of(status, "state")) {
        Some(s) => parse_state(s),
        None => TaskState::Completed,
    };
    let mut history: Vec<Message> = Vec::new();
    let user = text_message("user", text, Some(message_id.to_owned()), id.as_str());
    history.push(user);
    let ghost start = history@;
    assert(messages_view(start) =~= seq![user_message(text@, message_id@, id@)]);
    let arts = as_items(member_of(result, "artifacts"));
    let ghost art_texts = artifact_texts(items_of(or_null(result).member("artifacts"@)));
    match arts {
        Some(a) => {
            push_artifact_texts(a, id.as_str(), &mut history);
        },
        None => {
            assert(art_texts =~= Seq::<Seq<char>>::empty());
        },
    }
    assert(messages_view(history@) == messages_view(start) + agent_messages(art_texts, id@));
    if history.len() == 1 {
        assert(messages_view(history@).len() == 1);
        assert(agent_messages(art_texts, id@).len() == 0);
        assert(art_texts.len() == 0);
        let found = match as_items(member_of(result, "history")) {
            Some(h) => first_agent_text_of(h),
            None => None,
        };
        match found {
            Some((t, m)) => {
                let mid = match m {
                    Some(x) => Some(x.to_owned()),
                    None => None,
                };
                let msg = text_message("agent", t, mid, id.as_str());
                history.push(msg);
            },
            None => {
                let sm = member_of(status, "message");
                let st = if is_object(sm) {
                    match as_items(member_of(sm, "parts")) {
                        Some(parts) => first_text_of(parts),
                        None => None,
                    }
                } else {
                    None
                };
                if let Some(t) = st {
                    let msg = text_message("agent", t, None, id.as_str());
                    history.push(msg);
                }
            },
        }
    }
    let artifacts = match as_items(member_of(result, "artifacts")) {
        Some(a) => Some(artifacts_from(a)),
        None => None,
    };
    let context_id = match as_text(member_of(result, "contextId")) {
        Some(c) => Some(c.to_owned()),
        None => None,
    };
    let task = Task {
        id,
        context_id,
        status: TaskStatus { state, message: None },
        history: Some(history),
        artifacts,
    };
    assert(task@.history == Some(
        seq![user_message(text@, message_id@, task@.id)] + answer_messages(
            or_null(result),
            task@.id,
        ),
    ));
    Ok(task)
}

} // verus!
