//! The registry of remote agents, tasks and push-notification configs.
//!
//! Agents and tasks are each kept in the order they were last written, with no
//! two entries under one id; push-notification configs are kept in the order
//! they were added.

use vstd::prelude::*;

use crate::clock::now;
use crate::ids::{is_agent_id, is_message_id, is_push_config_id, new_agent_id, new_message_id, new_push_config_id};
use crate::json::{json_text, to_json_text, JsonValue};
use crate::protocol::{is_send_request, reply_task, send_request, task_from_reply};
use crate::text::join;
use crate::types::{
    active_push_config, connected_agent, strings_view, AgentCard, AgentView, PushConfigView,
    PushNotificationConfig, RemoteAgent, StatusView, Task, TaskState, TaskStatus, TaskView,
};

verus! {

// ----- sequences of records keyed by an id -----

/// No two records of `s` have the same id.
pub open spec fn ids_unique<T>(s: Seq<T>, id_of: spec_fn(T) -> Seq<char>) -> bool {
    forall|i: int, j: int| 0 <= i < s.len() && 0 <= j < s.len() && i != j ==> id_of(s[i]) != id_of(s[j])
}

/// Some record of `s` has the id `id`.
pub open spec fn holds_id<T>(s: Seq<T>, id: Seq<char>, id_of: spec_fn(T) -> Seq<char>) -> bool {
    exists|i: int| 0 <= i < s.len() && id_of(s[i]) == id
}

/// The position of the record with id `id` in `s`, -1 where there is none.
pub open spec fn position_of<T>(s: Seq<T>, id: Seq<char>, id_of: spec_fn(T) -> Seq<char>) -> int {
    if holds_id(s, id, id_of) {
        choose|i: int| 0 <= i < s.len() && id_of(s[i]) == id
    } else {
        -1
    }
}

/// The record with id `id` in `s`.
pub open spec fn lookup_id<T>(s: Seq<T>, id: Seq<char>, id_of: spec_fn(T) -> Seq<char>) -> Option<T> {
    if holds_id(s, id, id_of) {
        Some(s[position_of(s, id, id_of)])
    } else {
        None
    }
}

/// `s` with `x` written under its id: a record with that id leaves its place,
/// and `x` comes last.
pub open spec fn put_id<T>(s: Seq<T>, x: T, id_of: spec_fn(T) -> Seq<char>) -> Seq<T> {
    if holds_id(s, id_of(x), id_of) {
        s.remove(position_of(s, id_of(x), id_of)).push(x)
    } else {
        s.push(x)
    }
}

/// Writing a record keeps ids unique, and the record written is then found under its id.
pub proof fn lemma_put_id<T>(s: Seq<T>, x: T, id_of: spec_fn(T) -> Seq<char>)
    requires
        ids_unique(s, id_of),
    ensures
        ids_unique(put_id(s, x, id_of), id_of),
        lookup_id(put_id(s, x, id_of), id_of(x), id_of) == Some(x),
        forall|k: Seq<char>|
            k != id_of(x) ==> #[trigger] lookup_id(put_id(s, x, id_of), k, id_of) == lookup_id(
                s,
                k,
                id_of,
            ),
{
    let r = put_id(s, x, id_of);
    let m = if holds_id(s, id_of(x), id_of) {
        s.remove(position_of(s, id_of(x), id_of))
    } else {
        s
    };
    assert(r == m.push(x));
    // every record that stays has another id than `x`, and the records that stay
    // are those of `s` but the one of `x`'s id
    if holds_id(s, id_of(x), id_of) {
        let p = position_of(s, id_of(x), id_of);
        assert(0 <= p < s.len() && id_of(s[p]) == id_of(x));
        assert forall|i: int| 0 <= i < m.len() implies #[trigger] m[i] == s[if i < p { i } else { i + 1 }] by {}
        assert forall|i: int| 0 <= i < m.len() implies id_of(#[trigger] m[i]) != id_of(x) by {
            let si = if i < p { i } else { i + 1 };
            assert(m[i] == s[si]);
            assert(si != p);
        }
        assert forall|i: int, j: int| 0 <= i < m.len() && 0 <= j < m.len() && i != j implies id_of(
            #[trigger] m[i],
        ) != id_of(#[trigger] m[j]) by {
            let si = if i < p { i } else { i + 1 };
            let sj = if j < p { j } else { j + 1 };
            assert(m[i] == s[si]);
            assert(m[j] == s[sj]);
        }
        assert forall|k: Seq<char>| k != id_of(x) implies holds_id(m, k, id_of) == holds_id(s, k, id_of) by {
            if holds_id(s, k, id_of) {
                let w = choose|w: int| 0 <= w < s.len() && id_of(s[w]) == k;
                let mw = if w < p { w } else { w - 1 };
                assert(w != p);
                assert(m[mw] == s[w]);
            }
            if holds_id(m, k, id_of) {
                let w = choose|w: int| 0 <= w < m.len() && id_of(m[w]) == k;
                assert(m[w] == s[if w < p { w } else { w + 1 }]);
            }
        }
        assert forall|k: Seq<char>| k != id_of(x) && holds_id(s, k, id_of) implies lookup_id(m, k, id_of)
            == lookup_id(s, k, id_of) by {
            let a = position_of(m, k, id_of);
            let b = position_of(s, k, id_of);
            let sa = if a < p { a } else { a + 1 };
            assert(m[a] == s[sa]);
            assert(id_of(s[sa]) == id_of(s[b]));
        }
    } else {
        assert forall|i: int| 0 <= i < m.len() implies id_of(#[trigger] m[i]) != id_of(x) by {}
    }
    assert forall|i: int, j: int| 0 <= i < r.len() && 0 <= j < r.len() && i != j implies id_of(
        #[trigger] r[i],
    ) != id_of(#[trigger] r[j]) by {
        if i < m.len() {
            assert(r[i] == m[i]);
        }
        if j < m.len() {
            assert(r[j] == m[j]);
        }
    }
    assert(r[r.len() - 1] == x);
    assert(holds_id(r, id_of(x), id_of));
    assert(id_of(r[position_of(r, id_of(x), id_of)]) == id_of(r[r.len() - 1]));
    assert forall|k: Seq<char>| k != id_of(x) implies #[trigger] lookup_id(r, k, id_of) == lookup_id(
        m,
        k,
        id_of,
    ) by {
        if holds_id(r, k, id_of) {
            let w = choose|w: int| 0 <= w < r.len() && id_of(r[w]) == k;
            assert(w < m.len());
            assert(r[w] == m[w]);
        }
        if holds_id(m, k, id_of) {
            let w = choose|w: int| 0 <= w < m.len() && id_of(m[w]) == k;
            assert(r[w] == m[w]);
            let a = position_of(r, k, id_of);
            let b = position_of(m, k, id_of);
            assert(a < m.len());
            assert(r[a] == m[a]);
        }
    }
}

/// The id of a task.
pub open spec fn task_key() -> spec_fn(TaskView) -> Seq<char> {
    |t: TaskView| t.id
}

/// The id of an agent.
pub open spec fn agent_key() -> spec_fn(AgentView) -> Seq<char> {
    |a: AgentView| a.agent_id
}

/// The status a task takes when the operator cancels it.
pub open spec fn cancel_status() -> StatusView {
    StatusView { state: TaskState::Canceled, message: Some("Canceled by operator"@) }
}

/// `tasks` with the task of id `id` canceled in place.
pub open spec fn cancel_in(tasks: Seq<TaskView>, id: Seq<char>) -> Seq<TaskView> {
    let i = position_of(tasks, id, task_key());
    let t = tasks[i];
    tasks.update(
        i,
        TaskView {
            id: t.id,
            context_id: t.context_id,
            status: cancel_status(),
            history: t.history,
            artifacts: t.artifacts,
        },
    )
}

/// The abstract values of a list of tasks.
pub open spec fn task_views(v: Seq<Task>) -> Seq<TaskView> {
    v.map_values(|t: Task| t@)
}

/// The abstract values of a list of agents.
pub open spec fn agent_views(v: Seq<RemoteAgent>) -> Seq<AgentView> {
    v.map_values(|a: RemoteAgent| a@)
}

/// The abstract values of a list of push-notification configs.
pub open spec fn push_config_views(v: Seq<PushNotificationConfig>) -> Seq<PushConfigView> {
    v.map_values(|c: PushNotificationConfig| c@)
}

/// A `message/send` request ready to go to an agent's endpoint.
pub struct OutboundMessage {
    /// The agent's endpoint, from its card.
    pub url: String,
    /// The id of the message, which is also the id of the request.
    pub message_id: String,
    /// The JSON-RPC request.
    pub request: JsonValue,
}

/// `c` is the push-notification config of agent `agent_id` for webhook `webhook_url`.
pub open spec fn is_target(c: PushConfigView, agent_id: Seq<char>, webhook_url: Seq<char>) -> bool {
    c.agent_id == agent_id && c.webhook_url == webhook_url
}

/// No two configs are for the same agent and webhook.
pub open spec fn targets_unique(cs: Seq<PushConfigView>) -> bool {
    forall|i: int, j: int|
        0 <= i < cs.len() && 0 <= j < cs.len() && i != j && #[trigger] is_target(
            cs[i],
            cs[j].agent_id,
            cs[j].webhook_url,
        ) ==> false
}

/// Some config is for agent `agent_id` and webhook `webhook_url`.
pub open spec fn has_target(cs: Seq<PushConfigView>, agent_id: Seq<char>, webhook_url: Seq<char>) -> bool {
    exists|i: int| 0 <= i < cs.len() && #[trigger] is_target(cs[i], agent_id, webhook_url)
}

/// The position of the config for agent `agent_id` and webhook `webhook_url`.
pub open spec fn target_position(cs: Seq<PushConfigView>, agent_id: Seq<char>, webhook_url: Seq<char>) -> int {
    choose|i: int| 0 <= i < cs.len() && #[trigger] is_target(cs[i], agent_id, webhook_url)
}

/// `cs` with the config `c` set: it takes the place of the config for the same
/// agent and webhook, or comes last where there is none.
pub open spec fn set_config(cs: Seq<PushConfigView>, c: PushConfigView) -> Seq<PushConfigView> {
    if has_target(cs, c.agent_id, c.webhook_url) {
        cs.update(target_position(cs, c.agent_id, c.webhook_url), c)
    } else {
        cs.push(c)
    }
}

/// The registry.
pub struct A2aStore {
    agents: Vec<RemoteAgent>,
    tasks: Vec<Task>,
    push_configs: Vec<PushNotificationConfig>,
}

impl A2aStore {
    /// The registered agents, oldest write first.
    pub closed spec fn agents_view(&self) -> Seq<AgentView> {
        agent_views(self.agents@)
    }

    /// The recorded tasks, oldest write first.
    pub closed spec fn tasks_view(&self) -> Seq<TaskView> {
        task_views(self.tasks@)
    }

    /// The push-notification configs, oldest first.
    pub closed spec fn push_configs_view(&self) -> Seq<PushConfigView> {
        push_config_views(self.push_configs@)
    }

    /// No two agents, and no two tasks, share an id; no two push-notification
    /// configs are for the same agent and webhook.
    pub open spec fn wf(&self) -> bool {
        &&& ids_unique(self.agents_view(), agent_key())
        &&& ids_unique(self.tasks_view(), task_key())
        &&& targets_unique(self.push_configs_view())
    }

    /// An empty registry.
    pub fn new() -> (s: Self)
        ensures
            s.wf(),
            s.agents_view() == Seq::<AgentView>::empty(),
            s.tasks_view() == Seq::<TaskView>::empty(),
            s.push_configs_view() == Seq::<PushConfigView>::empty(),
    {
        let s = A2aStore { agents: Vec::new(), tasks: Vec::new(), push_configs: Vec::new() };
        assert(s.agents_view() =~= Seq::<AgentView>::empty());
        assert(s.tasks_view() =~= Seq::<TaskView>::empty());
        assert(s.push_configs_view() =~= Seq::<PushConfigView>::empty());
        s
    }

    fn task_position(&self, task_id: &str) -> (r: Option<usize>)
        requires
            self.wf(),
        ensures
            match r {
                Some(i) => {
                    &&& i < self.tasks@.len()
                    &&& holds_id(self.tasks_view(), task_id@, task_key())
                    &&& i == position_of(self.tasks_view(), task_id@, task_key())
                },
                None => !holds_id(self.tasks_view(), task_id@, task_key()),
            },
    {
        let key = task_id.to_owned();
        let n = self.tasks.len();
        let mut i: usize = 0;
        while i < n
            invariant
                n == self.tasks@.len(),
                i <= n,
                key@ == task_id@,
                self.wf(),
                forall|j: int| 0 <= j < i ==> #[trigger] self.tasks@[j].id@ != task_id@,
            decreases n - i,
        {
            if self.tasks[i].id == key {
                let ghost views = self.tasks_view();
                assert(views[i as int].id == task_id@);
                assert(holds_id(views, task_id@, task_key()));
                let ghost p = position_of(views, task_id@, task_key());
                assert(views[p].id == task_id@);
                assert(task_key()(views[p]) == task_key()(views[i as int]));
                return Some(i);
            }
            i = i + 1;
        }
        assert forall|j: int| 0 <= j < self.tasks_view().len() implies #[trigger] self.tasks_view()[j].id
            != task_id@ by {
            assert(self.tasks_view()[j] == self.tasks@[j]@);
        }
        None
    }

    /// Records `task` under its id: a task with that id gives way, and `task`
    /// becomes the most recent one.
    pub fn put_task(&mut self, task: Task)
        requires
            old(self).wf(),
        ensures
            final(self).wf(),
            final(self).tasks_view() == put_id(old(self).tasks_view(), task@, task_key()),
            final(self).agents_view() == old(self).agents_view(),
            final(self).push_configs_view() == old(self).push_configs_view(),
    {
        let ghost old_views = self.tasks_view();
        let pos = self.task_position(task.id.as_str());
        match pos {
            Some(i) => {
                let _ = self.tasks.remove(i);
                assert(task_views(self.tasks@) =~= old_views.remove(i as int));
            },
            None => {},
        }
        let ghost mid = self.tasks_view();
        self.tasks.push(task);
        assert(task_views(self.tasks@) =~= mid.push(task@));
        proof {
            lemma_put_id(old_views, task@, task_key());
        }
    }

    /// The task recorded under `task_id`.
    pub fn get_task(&self, task_id: &str) -> (r: Option<Task>)
        requires
            self.wf(),
        ensures
            match r {
                Some(t) => lookup_id(self.tasks_view(), task_id@, task_key()) == Some(t@),
                None => lookup_id(self.tasks_view(), task_id@, task_key()) is None,
            },
    {
        match self.task_position(task_id) {
            Some(i) => Some(self.tasks[i].clone()),
            None => None,
        }
    }

    /// All recorded tasks, the most recently written first.
    pub fn list_tasks(&self) -> (r: Vec<Task>)
        ensures
            task_views(r@) == self.tasks_view().reverse(),
    {
        let n = self.tasks.len();
        let mut r: Vec<Task> = Vec::new();
        let mut k: usize = n;
        while k > 0
            invariant
                n == self.tasks@.len(),
                k <= n,
                r@.len() == n - k,
                forall|i: int| 0 <= i < n - k ==> (#[trigger] r@[i])@ == self.tasks@[n - 1 - i]@,
            decreases k,
        {
            k = k - 1;
            let t = self.tasks[k].clone();
            r.push(t);
        }
        assert(task_views(r@) =~= self.tasks_view().reverse());
        r
    }

    /// Marks the task `task_id` canceled by the operator; fails where no such task is recorded.
    pub fn cancel_task(&mut self, task_id: &str) -> (r: Result<(), String>)
        requires
            old(self).wf(),
        ensures
            final(self).wf(),
            final(self).agents_view() == old(self).agents_view(),
            final(self).push_configs_view() == old(self).push_configs_view(),
            holds_id(old(self).tasks_view(), task_id@, task_key()) ==> {
                &&& r is Ok
                &&& final(self).tasks_view() == cancel_in(old(self).tasks_view(), task_id@)
            },
            !holds_id(old(self).tasks_view(), task_id@, task_key()) ==> {
                &&& r matches Err(e) && e@ == "Task not found: "@ + task_id@
                &&& final(self).tasks_view() == old(self).tasks_view()
            },
    {
        let ghost old_views = self.tasks_view();
        match self.task_position(task_id) {
            Some(i) => {
                let mut t = self.tasks.remove(i);
                t.status = TaskStatus {
                    state: TaskState::Canceled,
                    message: Some("Canceled by operator".to_owned()),
                };
                self.tasks.insert(i, t);
                assert(task_views(self.tasks@) =~= cancel_in(old_views, task_id@));
                assert forall|a: int, b: int|
                    0 <= a < self.tasks_view().len() && 0 <= b < self.tasks_view().len() && a
                        != b implies task_key()(#[trigger] self.tasks_view()[a]) != task_key()(
                    #[trigger] self.tasks_view()[b],
                ) by {
                    assert(self.tasks_view()[a].id == old_views[a].id);
                    assert(self.tasks_view()[b].id == old_views[b].id);
                }
                Ok(())
            },
            None => Err(crate::text::join("Task not found: ", task_id)),
        }
    }

    fn agent_position(&self, agent_id: &str) -> (r: Option<usize>)
        requires
            self.wf(),
        ensures
            match r {
                Some(i) => {
                    &&& i < self.agents@.len()
                    &&& holds_id(self.agents_view(), agent_id@, agent_key())
                    &&& i == position_of(self.agents_view(), agent_id@, agent_key())
                },
                None => !holds_id(self.agents_view(), agent_id@, agent_key()),
            },
    {
        let key = agent_id.to_owned();
        let n = self.agents.len();
        let mut i: usize = 0;
        while i < n
            invariant
                n == self.agents@.len(),
                i <= n,
                key@ == agent_id@,
                self.wf(),
                forall|j: int| 0 <= j < i ==> #[trigger] self.agents@[j].agent_id@ != agent_id@,
            decreases n - i,
        {
            if self.agents[i].agent_id == key {
                let ghost views = self.agents_view();
                assert(views[i as int].agent_id == agent_id@);
                assert(holds_id(views, agent_id@, agent_key()));
                let ghost p = position_of(views, agent_id@, agent_key());
                assert(views[p].agent_id == agent_id@);
                assert(agent_key()(views[p]) == agent_key()(views[i as int]));
                return Some(i);
            }
            i = i + 1;
        }
        assert forall|j: int| 0 <= j < self.agents_view().len() implies #[trigger] self.agents_view()[j].agent_id
            != agent_id@ by {
            assert(self.agents_view()[j] == self.agents@[j]@);
        }
        None
    }

    /// Registers the agent at `base_url` that `card` describes, as `connected`,
    /// under a fresh id, seen now.
    pub fn register_agent(&mut self, base_url: String, card: AgentCard) -> (r: RemoteAgent)
        requires
            old(self).wf(),
        ensures
            final(self).wf(),
            is_agent_id(r@.agent_id),
            r@.last_seen_at matches Some(seen) && seen.nanos < 1_000_000_000,
            r@.created_at.nanos < 1_000_000_000,
            r@.card == Some(card@),
            r@.base_url == base_url@,
            r@.last_seen_at matches Some(seen) && r@ == connected_agent(
                r@.agent_id,
                base_url@,
                card@,
                seen,
                r@.created_at,
            ),
            final(self).agents_view() == put_id(old(self).agents_view(), r@, agent_key()),
            final(self).tasks_view() == old(self).tasks_view(),
            final(self).push_configs_view() == old(self).push_configs_view(),
    {
        let agent_id = new_agent_id();
        let last_seen_at = now();
        let created_at = now();
        let agent = RemoteAgent::connected(agent_id, base_url, card, last_seen_at, created_at);
        let ghost old_views = self.agents_view();
        let pos = self.agent_position(agent.agent_id.as_str());
        match pos {
            Some(i) => {
                let _ = self.agents.remove(i);
                assert(agent_views(self.agents@) =~= old_views.remove(i as int));
            },
            None => {},
        }
        let ghost mid = self.agents_view();
        let stored = agent.clone();
        self.agents.push(stored);
        assert(agent_views(self.agents@) =~= mid.push(agent@));
        proof {
            lemma_put_id(old_views, agent@, agent_key());
        }
        agent
    }

    /// All registered agents, the oldest write first.
    pub fn list_agents(&self) -> (r: Vec<RemoteAgent>)
        ensures
            agent_views(r@) == self.agents_view(),
    {
        let r = self.agents.clone();
        assert(agent_views(r@) =~= self.agents_view());
        r
    }

    /// The agent registered under `agent_id`.
    pub fn find_agent(&self, agent_id: &str) -> (r: Option<RemoteAgent>)
        requires
            self.wf(),
        ensures
            match r {
                Some(a) => lookup_id(self.agents_view(), agent_id@, agent_key()) == Some(a@),
                None => lookup_id(self.agents_view(), agent_id@, agent_key()) is None,
            },
    {
        match self.agent_position(agent_id) {
            Some(i) => Some(self.agents[i].clone()),
            None => None,
        }
    }

    /// The `message/send` request that sends `text` to the agent `agent_id`,
    /// under a fresh message id, addressed to the endpoint of the agent's card.
    /// Fails where no such agent is registered, or where it has no card.
    pub fn prepare_message(&self, agent_id: &str, text: &str) -> (r: Result<OutboundMessage, String>)
        requires
            self.wf(),
        ensures
            match lookup_id(self.agents_view(), agent_id@, agent_key()) {
                None => r matches Err(e) && e@ == "Agent not found: "@ + agent_id@,
                Some(a) => match a.card {
                    None => r matches Err(e) && e@ == "No agent card"@,
                    Some(c) => r matches Ok(m) && {
                        &&& m.url@ == c.url
                        &&& is_message_id(m.message_id@)
                        &&& is_send_request(m.request, text@, m.message_id@)
                    },
                },
            },
    {
        let i = match self.agent_position(agent_id) {
            Some(i) => i,
            None => {
                return Err(join("Agent not found: ", agent_id));
            },
        };
        assert(self.agents_view()[i as int] == self.agents@[i as int]@);
        match &self.agents[i].card {
            None => Err("No agent card".to_owned()),
            Some(card) => {
                let message_id = new_message_id();
                let request = send_request(text, message_id.as_str());
                Ok(OutboundMessage { url: card.url.clone(), message_id, request })
            },
        }
    }

    /// Records the task that the reply `body` to the user message `text`, sent as
    /// `message_id`, describes, and returns it; where the reply carries an `error`
    /// member, records nothing and reports "RPC error: " and that member as
    /// compact JSON.
    pub fn record_reply(&mut self, body: &JsonValue, text: &str, message_id: &str) -> (r: Result<
        Task,
        String,
    >)
        requires
            old(self).wf(),
        ensures
            final(self).wf(),
            final(self).agents_view() == old(self).agents_view(),
            final(self).push_configs_view() == old(self).push_configs_view(),
            match body.lookup("error"@) {
                Some(e) => {
                    &&& r matches Err(m) && m@ == "RPC error: "@ + json_text(e)
                    &&& final(self).tasks_view() == old(self).tasks_view()
                },
                None => {
                    &&& r matches Ok(t) && t@ == reply_task(*body, text@, message_id@)
                    &&& final(self).tasks_view() == put_id(
                        old(self).tasks_view(),
                        r->Ok_0@,
                        task_key(),
                    )
                },
            },
    {
        match task_from_reply(body, text, message_id) {
            Ok(task) => {
                self.put_task(task.clone());
                Ok(task)
            },
            Err(e) => {
                let text = to_json_text(e);
                Err(join("RPC error: ", text.as_str()))
            },
        }
    }

    /// Sets an active push-notification config for agent `agent_id` and webhook
    /// `webhook_url`: where there is one already, it keeps its id, its creation
    /// time and its place, and takes the events `events`; where there is none, a
    /// new one comes last, under a fresh id, created now.
    pub fn add_push_config(&mut self, agent_id: String, webhook_url: String, events: Vec<String>) -> (r:
        PushNotificationConfig)
        requires
            old(self).wf(),
        ensures
            final(self).wf(),
            r@ == active_push_config(
                r@.config_id,
                agent_id@,
                webhook_url@,
                strings_view(events@),
                r@.created_at,
            ),
            has_target(old(self).push_configs_view(), agent_id@, webhook_url@) ==> {
                let c = old(self).push_configs_view()[target_position(
                    old(self).push_configs_view(),
                    agent_id@,
                    webhook_url@,
                )];
                &&& r@.config_id == c.config_id
                &&& r@.created_at == c.created_at
            },
            !has_target(old(self).push_configs_view(), agent_id@, webhook_url@) ==> {
                &&& is_push_config_id(r@.config_id)
                &&& r@.created_at.nanos < 1_000_000_000
            },
            final(self).push_configs_view() == set_config(old(self).push_configs_view(), r@),
            final(self).agents_view() == old(self).agents_view(),
            final(self).tasks_view() == old(self).tasks_view(),
    {
        let ghost before = self.push_configs_view();
        let n = self.push_configs.len();
        let mut i: usize = 0;
        while i < n
            invariant
                n == self.push_configs@.len(),
                before == self.push_configs_view(),
                i <= n,
                forall|j: int| 0 <= j < i ==> !#[trigger] is_target(before[j], agent_id@, webhook_url@),
            ensures
                i <= n,
                forall|j: int| 0 <= j < i ==> !#[trigger] is_target(before[j], agent_id@, webhook_url@),
                i < n ==> is_target(before[i as int], agent_id@, webhook_url@),
            decreases n - i,
        {
            assert(before[i as int] == self.push_configs@[i as int]@);
            if self.push_configs[i].agent_id == agent_id && self.push_configs[i].webhook_url == webhook_url {
                break;
            }
            i = i + 1;
        }
        if i < n {
            assert(is_target(before[i as int], agent_id@, webhook_url@));
            assert(has_target(before, agent_id@, webhook_url@));
            let ghost p = target_position(before, agent_id@, webhook_url@);
            assert(p == i) by {
                if p != i {
                    assert(is_target(before[p], before[i as int].agent_id, before[i as int].webhook_url));
                }
            }
            let old_config = self.push_configs.remove(i);
            let config = PushNotificationConfig::active(
                old_config.config_id,
                agent_id,
                webhook_url,
                events,
                old_config.created_at,
            );
            self.push_configs.insert(i, config.clone());
            assert(push_config_views(self.push_configs@) =~= before.update(i as int, config@));
            assert forall|a: int, b: int|
                0 <= a < self.push_configs_view().len() && 0 <= b < self.push_configs_view().len()
                    && a != b && #[trigger] is_target(
                    self.push_configs_view()[a],
                    self.push_configs_view()[b].agent_id,
                    self.push_configs_view()[b].webhook_url,
                ) implies false by {
                let v = self.push_configs_view();
                assert(v[a].agent_id == before[a].agent_id && v[a].webhook_url == before[a].webhook_url);
                assert(v[b].agent_id == before[b].agent_id && v[b].webhook_url == before[b].webhook_url);
                assert(is_target(before[a], before[b].agent_id, before[b].webhook_url));
            }
            config
        } else {
            let config_id = new_push_config_id();
            let created_at = now();
            let config = PushNotificationConfig::active(config_id, agent_id, webhook_url, events, created_at);
            assert(!has_target(before, config@.agent_id, config@.webhook_url));
            self.push_configs.push(config.clone());
            assert(push_config_views(self.push_configs@) =~= before.push(config@));
            assert forall|a: int, b: int|
                0 <= a < self.push_configs_view().len() && 0 <= b < self.push_configs_view().len()
                    && a != b && #[trigger] is_target(
                    self.push_configs_view()[a],
                    self.push_configs_view()[b].agent_id,
                    self.push_configs_view()[b].webhook_url,
                ) implies false by {
                let v = self.push_configs_view();
                if a == n {
                    assert(is_target(before[b], config@.agent_id, config@.webhook_url));
                } else if b == n {
                    assert(is_target(before[a], config@.agent_id, config@.webhook_url));
                } else {
                    assert(is_target(before[a], before[b].agent_id, before[b].webhook_url));
                }
            }
            config
        }
    }

    /// All push-notification configs, the oldest first.
    pub fn list_push_configs(&self) -> (r: Vec<PushNotificationConfig>)
        ensures
            push_config_views(r@) == self.push_configs_view(),
    {
        let r = self.push_configs.clone();
        assert(push_config_views(r@) =~= self.push_configs_view());
        r
    }
}

} // verus!
