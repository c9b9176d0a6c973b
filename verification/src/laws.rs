//! Properties of the registry and of the protocol that hold across operations.

use vstd::prelude::*;

use crate::card::{card_url, version_supported};
use crate::json::JsonValue;
use crate::protocol::{
    artifact_texts, entries_of, first_agent_text, first_text, is_send_request, items_of, parts_of,
    part_text, reply_task, user_message,
};
use crate::server::limited;
use crate::store::{
    agent_key, cancel_in, cancel_status, has_target, holds_id, ids_unique, is_target, lemma_put_id,
    lookup_id, position_of, put_id, set_config, target_position, targets_unique, task_key,
};
use crate::types::{connected_agent, AgentView, CardView, PartView, PushConfigView, TaskView, Timestamp};

verus! {

/// A task, once recorded, is what a read of its id gives back.
pub proof fn law_recorded_task_is_found(tasks: Seq<TaskView>, t: TaskView)
    requires
        ids_unique(tasks, task_key()),
    ensures
        lookup_id(put_id(tasks, t, task_key()), t.id, task_key()) == Some(t),
        ids_unique(put_id(tasks, t, task_key()), task_key()),
{
    lemma_put_id(tasks, t, task_key());
}

/// Recording a task leaves what a read of any other id gives back unchanged.
pub proof fn law_recording_keeps_other_tasks(tasks: Seq<TaskView>, t: TaskView, id: Seq<char>)
    requires
        ids_unique(tasks, task_key()),
        id != t.id,
    ensures
        lookup_id(put_id(tasks, t, task_key()), id, task_key()) == lookup_id(tasks, id, task_key()),
{
    lemma_put_id(tasks, t, task_key());
    assert(lookup_id(put_id(tasks, t, task_key()), id, task_key()) == lookup_id(
        tasks,
        id,
        task_key(),
    ));
}

/// The task recorded last comes first in the task list.
pub proof fn law_recorded_task_listed_first(tasks: Seq<TaskView>, t: TaskView)
    ensures
        put_id(tasks, t, task_key()).reverse()[0] == t,
        put_id(tasks, t, task_key()).len() > 0,
{
    let r = put_id(tasks, t, task_key());
    if holds_id(tasks, t.id, task_key()) {
        let p = position_of(tasks, t.id, task_key());
        assert(tasks.remove(p).len() == tasks.len() - 1);
    }
    assert(r[r.len() - 1] == t);
}

/// An agent, once registered, is what a read of its id gives back.
pub proof fn law_registered_agent_is_found(agents: Seq<AgentView>, a: AgentView)
    requires
        ids_unique(agents, agent_key()),
    ensures
        lookup_id(put_id(agents, a, agent_key()), a.agent_id, agent_key()) == Some(a),
        ids_unique(put_id(agents, a, agent_key()), agent_key()),
{
    lemma_put_id(agents, a, agent_key());
}

/// Canceling a recorded task gives it the operator's cancel status, keeps the
/// rest of it, and leaves every other task as it was.
pub proof fn law_cancel_marks_only_that_task(tasks: Seq<TaskView>, id: Seq<char>, other: Seq<char>)
    requires
        ids_unique(tasks, task_key()),
        holds_id(tasks, id, task_key()),
        other != id,
    ensures
        ids_unique(cancel_in(tasks, id), task_key()),
        lookup_id(cancel_in(tasks, id), id, task_key()) matches Some(c) && lookup_id(
            tasks,
            id,
            task_key(),
        ) matches Some(t) && c == (TaskView {
            id: t.id,
            context_id: t.context_id,
            status: cancel_status(),
            history: t.history,
            artifacts: t.artifacts,
        }),
        lookup_id(cancel_in(tasks, id), other, task_key()) == lookup_id(tasks, other, task_key()),
{
    let p = position_of(tasks, id, task_key());
    let r = cancel_in(tasks, id);
    assert(tasks[p].id == id);
    assert forall|i: int| 0 <= i < r.len() implies (#[trigger] r[i]).id == tasks[i].id by {}
    assert forall|i: int, j: int| 0 <= i < r.len() && 0 <= j < r.len() && i != j implies task_key()(
        #[trigger] r[i],
    ) != task_key()(#[trigger] r[j]) by {
        assert(task_key()(tasks[i]) != task_key()(tasks[j]));
    }
    assert(r[p].id == id);
    assert(holds_id(r, id, task_key()));
    let q = position_of(r, id, task_key());
    assert(task_key()(r[q]) == task_key()(r[p]));
    if holds_id(tasks, other, task_key()) {
        let w = position_of(tasks, other, task_key());
        assert(r[w].id == other);
        assert(holds_id(r, other, task_key()));
        let v = position_of(r, other, task_key());
        assert(task_key()(r[v]) == task_key()(r[w]));
        assert(w != p);
    }
    if holds_id(r, other, task_key()) {
        let v = position_of(r, other, task_key());
        assert(tasks[v].id == other);
    }
}

/// Canceling a task twice is canceling it once.
pub proof fn law_cancel_is_idempotent(tasks: Seq<TaskView>, id: Seq<char>)
    requires
        ids_unique(tasks, task_key()),
        holds_id(tasks, id, task_key()),
    ensures
        cancel_in(cancel_in(tasks, id), id) == cancel_in(tasks, id),
{
    let p = position_of(tasks, id, task_key());
    let r = cancel_in(tasks, id);
    assert(tasks[p].id == id);
    assert(r[p].id == id);
    assert(holds_id(r, id, task_key()));
    let q = position_of(r, id, task_key());
    assert forall|i: int| 0 <= i < r.len() implies (#[trigger] r[i]).id == tasks[i].id by {}
    assert(task_key()(tasks[q]) == task_key()(tasks[p]));
    assert(cancel_in(r, id) =~= r);
}

/// A task list cut at `limit` holds the first `limit` tasks of the full list,
/// or all of them where there are fewer.
pub proof fn law_limit_keeps_a_prefix(tasks: Seq<TaskView>, limit: usize)
    ensures
        limited(tasks, Some(limit)).len() == if limit < tasks.len() {
            limit as int
        } else {
            tasks.len() as int
        },
        forall|i: int|
            0 <= i < limited(tasks, Some(limit)).len() ==> #[trigger] limited(tasks, Some(limit))[i]
                == tasks[i],
{
}

/// The conversation of a task built from a reply opens with the user's message,
/// and every message after it is the agent's, in that task.
pub proof fn law_reply_conversation_shape(body: crate::json::JsonValue, text: Seq<char>, message_id: Seq<char>)
    ensures
        reply_task(body, text, message_id).history matches Some(h) && {
            let id = reply_task(body, text, message_id).id;
            &&& h.len() >= 1
            &&& h[0] == user_message(text, message_id, id)
            &&& forall|i: int| 1 <= i < h.len() ==> (#[trigger] h[i]).role == "agent"@ && h[i].task_id
                == Some(id)
        },
{
}

/// The request that sends a message and the task recorded from its reply carry
/// the same message id: the request's id, and the id of the task's first message.
pub proof fn law_request_and_task_share_message_id(
    request: crate::json::JsonValue,
    body: crate::json::JsonValue,
    text: Seq<char>,
    message_id: Seq<char>,
)
    requires
        is_send_request(request, text, message_id),
    ensures
        entries_of(request)[3].1.text() == Some(message_id),
        reply_task(body, text, message_id).history matches Some(h) && h[0].message_id == Some(
            message_id,
        ),
{
}

/// Setting a push-notification config leaves exactly one config for its agent
/// and webhook, the one set; where there was one, the list keeps its length.
pub proof fn law_push_config_set_replaces(cs: Seq<PushConfigView>, c: PushConfigView)
    requires
        targets_unique(cs),
    ensures
        targets_unique(set_config(cs, c)),
        has_target(set_config(cs, c), c.agent_id, c.webhook_url),
        set_config(cs, c)[target_position(set_config(cs, c), c.agent_id, c.webhook_url)] == c,
        has_target(cs, c.agent_id, c.webhook_url) ==> set_config(cs, c).len() == cs.len(),
        !has_target(cs, c.agent_id, c.webhook_url) ==> set_config(cs, c).len() == cs.len() + 1,
{
    let r = set_config(cs, c);
    let k = if has_target(cs, c.agent_id, c.webhook_url) {
        target_position(cs, c.agent_id, c.webhook_url)
    } else {
        cs.len() as int
    };
    assert(r[k] == c);
    assert(is_target(r[k], c.agent_id, c.webhook_url));
    assert forall|i: int| 0 <= i < r.len() && i != k implies #[trigger] r[i] == cs[i] by {}
    assert forall|i: int, j: int|
        0 <= i < r.len() && 0 <= j < r.len() && i != j && #[trigger] is_target(
            r[i],
            r[j].agent_id,
            r[j].webhook_url,
        ) implies false by {
        if i == k {
            assert(is_target(cs[j], c.agent_id, c.webhook_url));
            if k < cs.len() {
                assert(is_target(cs[j], cs[k].agent_id, cs[k].webhook_url));
            }
        } else if j == k {
            assert(is_target(cs[i], c.agent_id, c.webhook_url));
            if k < cs.len() {
                assert(is_target(cs[i], cs[k].agent_id, cs[k].webhook_url));
            }
        } else {
            assert(is_target(cs[i], cs[j].agent_id, cs[j].webhook_url));
        }
    }
    let q = target_position(r, c.agent_id, c.webhook_url);
    assert(q == k) by {
        if q != k {
            assert(is_target(r[q], r[k].agent_id, r[k].webhook_url));
        }
    }
}

/// Slashes at the end of a base URL make no difference to where its card is looked for.
pub proof fn law_trailing_slash_ignored(base_url: Seq<char>, i: int)
    ensures
        card_url(base_url.push('/'), i) == card_url(base_url, i),
{
    assert(base_url.push('/').drop_last() =~= base_url);
}


/// The text of a part is its `text` member whenever that member is a string,
/// whatever other members the part has or lacks.
pub proof fn law_part_text_is_its_text_member(part: JsonValue, t: Seq<char>)
    requires
        part.member("text"@).text() == Some(t),
    ensures
        part_text(part) == t,
{
}

proof fn lemma_first_agent_text_at(history: Seq<JsonValue>, i: int, t: Seq<char>)
    requires
        0 <= i < history.len(),
        forall|j: int| 0 <= j < i ==> history[j].member("role"@).text() != Some("agent"@),
        history[i].member("role"@).text() == Some("agent"@),
        parts_of(history[i]).len() > 0,
        parts_of(history[i])[0].member("text"@).text() == Some(t),
        t.len() > 0,
    ensures
        first_agent_text(history) == Some((t, history[i].member("messageId"@).text())),
    decreases i,
{
    if i == 0 {
        assert(part_text(parts_of(history[0])[0]) == t);
        assert(first_text(parts_of(history[0])) == Some(t));
    } else {
        let rest = history.drop_first();
        assert forall|j: int| 0 <= j < i - 1 implies rest[j].member("role"@).text() != Some(
            "agent"@,
        ) by {
            assert(rest[j] == history[j + 1]);
        }
        assert(rest[i - 1] == history[i]);
        lemma_first_agent_text_at(rest, i - 1, t);
    }
}

/// Where a reply carries no artifacts and its history holds an agent message
/// whose first part has a non-empty text `t` (with or without a `kind` member),
/// with no agent message before it, the task records exactly two messages: the
/// user's, then that agent message, with text `t` and that message's
/// `messageId`; whatever the status says.
pub proof fn law_history_answer_is_recorded(
    body: JsonValue,
    text: Seq<char>,
    message_id: Seq<char>,
    i: int,
    t: Seq<char>,
)
    requires
        body.member("result"@).member("artifacts"@).items() is None,
        ({
            let history = items_of(body.member("result"@).member("history"@));
            &&& 0 <= i < history.len()
            &&& forall|j: int| 0 <= j < i ==> history[j].member("role"@).text() != Some("agent"@)
            &&& history[i].member("role"@).text() == Some("agent"@)
            &&& parts_of(history[i]).len() > 0
            &&& parts_of(history[i])[0].member("text"@).text() == Some(t)
        }),
        t.len() > 0,
    ensures
        reply_task(body, text, message_id).history matches Some(h) && {
            let history = items_of(body.member("result"@).member("history"@));
            &&& h.len() == 2
            &&& h[0].role == "user"@
            &&& h[0].parts == seq![PartView::Text { text }]
            &&& h[1].role == "agent"@
            &&& h[1].parts == seq![PartView::Text { text: t }]
            &&& h[1].message_id == history[i].member("messageId"@).text()
            &&& h[1].task_id == Some(reply_task(body, text, message_id).id)
        },
{
    let result = body.member("result"@);
    let history = items_of(result.member("history"@));
    assert(items_of(result.member("artifacts"@)) =~= Seq::<JsonValue>::empty());
    assert(artifact_texts(Seq::<JsonValue>::empty()) =~= Seq::<Seq<char>>::empty());
    lemma_first_agent_text_at(history, i, t);
}

/// Every protocol version that begins with "0." or "1." is supported, and no other.
pub proof fn law_supported_versions(v: Seq<char>)
    ensures
        version_supported(v) <==> (v.len() >= 2 && (v[0] == '0' || v[0] == '1') && v[1] == '.'),
{
    reveal_strlit("0.");
    reveal_strlit("1.");
    assert("0."@ =~= seq!['0', '.']);
    assert("1."@ =~= seq!['1', '.']);
    if v.len() >= 2 {
        assert(v.subrange(0, 2) =~= seq![v[0], v[1]]);
        if v.subrange(0, 2) == seq!['0', '.'] {
            assert(v[0] == v.subrange(0, 2)[0]);
        }
        if v.subrange(0, 2) == seq!['1', '.'] {
            assert(v[0] == v.subrange(0, 2)[0]);
        }
    }
}

/// An agent registered from a card keeps that card unchanged, and is then
/// found under its id with that card.
pub proof fn law_registered_agent_keeps_its_card(
    agents: Seq<AgentView>,
    agent_id: Seq<char>,
    base_url: Seq<char>,
    card: CardView,
    seen: Timestamp,
    created: Timestamp,
)
    requires
        ids_unique(agents, agent_key()),
    ensures
        connected_agent(agent_id, base_url, card, seen, created).card == Some(card),
        lookup_id(
            put_id(agents, connected_agent(agent_id, base_url, card, seen, created), agent_key()),
            agent_id,
            agent_key(),
        ) matches Some(a) && a.card == Some(card) && a.base_url == base_url && a.name == card.name,
{
    lemma_put_id(agents, connected_agent(agent_id, base_url, card, seen, created), agent_key());
}

/// Setting the config of one agent never changes or removes a config of
/// another agent: those keep their places, and every config of another agent
/// afterwards was there before.
pub proof fn law_push_config_keeps_other_agents(cs: Seq<PushConfigView>, c: PushConfigView)
    ensures
        forall|i: int|
            0 <= i < cs.len() && cs[i].agent_id != c.agent_id ==> #[trigger] set_config(cs, c)[i]
                == cs[i],
        forall|i: int|
            0 <= i < set_config(cs, c).len() && (#[trigger] set_config(cs, c)[i]).agent_id
                != c.agent_id ==> i < cs.len() && set_config(cs, c)[i] == cs[i],
        set_config(cs, c).len() <= cs.len() + 1,
{
    if has_target(cs, c.agent_id, c.webhook_url) {
        let p = target_position(cs, c.agent_id, c.webhook_url);
        assert(is_target(cs[p], c.agent_id, c.webhook_url));
    }
}

/// Where no config is for both the agent and the webhook of `c`, setting `c`
/// adds it at the end and keeps every other config.
pub proof fn law_push_config_new_target_is_added(cs: Seq<PushConfigView>, c: PushConfigView)
    requires
        forall|i: int|
            0 <= i < cs.len() ==> !((#[trigger] cs[i]).agent_id == c.agent_id && cs[i].webhook_url
                == c.webhook_url),
    ensures
        set_config(cs, c) == cs.push(c),
{
    if has_target(cs, c.agent_id, c.webhook_url) {
        let p = target_position(cs, c.agent_id, c.webhook_url);
        assert(is_target(cs[p], c.agent_id, c.webhook_url));
        assert(false);
    }
}

} // verus!
