//! What each tool of the A2A server answers, given the registry and, for the
//! tools that talk to a remote agent, what the remote agent said.

use vstd::prelude::*;

use crate::card::{validate_card, version_supported, CardReport};
use crate::ids::{is_agent_id, is_push_config_id};
use crate::json::{json_text, JsonValue};
use crate::protocol::reply_task;
use crate::store::{
    agent_key, cancel_in, has_target, holds_id, lookup_id, put_id, set_config, target_position,
    task_key, task_views, A2aStore, OutboundMessage,
};
use crate::text::join;
use crate::types::{
    active_push_config, connected_agent, strings_view, AgentCard, RemoteAgent, Task,
    TaskState, TaskStatus, PushNotificationConfig,
};

verus! {

/// Input of `resolve_agent_card`.
#[derive(Debug)]
pub struct ResolveAgentCardInput {
    pub base_url: String,
}

/// Input of `validate_agent_card`.
#[derive(Debug)]
pub struct ValidateAgentCardInput {
    pub base_url: String,
}

/// Input of `list_remote_agents`.
#[derive(Debug)]
pub struct ListRemoteAgentsInput {}

/// Input of `send_message`.
#[derive(Debug)]
pub struct SendMessageInput {
    pub agent_id: String,
    pub text: String,
}

/// Input of `send_streaming_message`.
#[derive(Debug)]
pub struct SendStreamingMessageInput {
    pub agent_id: String,
    pub text: String,
}

/// Input of `get_task`.
#[derive(Debug)]
pub struct GetTaskInput {
    pub task_id: String,
}

/// Input of `list_tasks`.
#[derive(Debug)]
pub struct ListTasksInput {
    pub limit: Option<usize>,
}

/// Input of `cancel_task`.
#[derive(Debug)]
pub struct CancelTaskInput {
    pub task_id: String,
}

/// Input of `subscribe_to_task`.
#[derive(Debug)]
pub struct SubscribeToTaskInput {
    pub task_id: String,
}

/// Input of `configure_push_notifications`.
#[derive(Debug)]
pub struct ConfigurePushNotificationsInput {
    pub agent_id: String,
    pub webhook_url: String,
    pub events: Option<Vec<String>>,
}

/// Input of `get_extended_agent_card`.
#[derive(Debug)]
pub struct GetExtendedAgentCardInput {
    pub agent_id: String,
}

/// The answer of `send_streaming_message`: the task that was started.
#[derive(Debug)]
pub struct StreamingStart {
    pub task_id: String,
    pub status: TaskStatus,
    pub streaming: bool,
    pub message: String,
}

/// The answer of `cancel_task`.
#[derive(Debug)]
pub struct CancelAck {
    pub task_id: String,
    pub status: String,
}

/// The answer of `subscribe_to_task`.
#[derive(Debug)]
pub struct Subscription {
    pub task_id: String,
    pub subscription: String,
    pub current_state: TaskState,
    pub message: String,
}

/// The first `limit` elements of `s`, all of them where there is no limit.
pub open spec fn limited<T>(s: Seq<T>, limit: Option<usize>) -> Seq<T> {
    match limit {
        Some(n) => if n < s.len() {
            s.take(n as int)
        } else {
            s
        },
        None => s,
    }
}

/// The events a push-notification config listens to where none are named.
pub open spec fn default_push_events() -> Seq<Seq<char>> {
    seq!["status_update"@, "artifact_update"@]
}

/// The A2A server: the registry the tools work on.
pub struct A2aServer {
    pub store: A2aStore,
}

impl A2aServer {
    /// A server over `store`.
    pub fn new(store: A2aStore) -> (r: Self)
        ensures
            r.store == store,
    {
        A2aServer { store }
    }

    /// `resolve_agent_card`: registers the agent whose card was found at
    /// `input.base_url`, or says why the card could not be had.
    pub fn resolve_agent_card(
        &mut self,
        input: ResolveAgentCardInput,
        resolved: Result<AgentCard, String>,
    ) -> (r: Result<RemoteAgent, String>)
        requires
            old(self).store.wf(),
        ensures
            final(self).store.wf(),
            final(self).store.tasks_view() == old(self).store.tasks_view(),
            final(self).store.push_configs_view() == old(self).store.push_configs_view(),
            match resolved {
                Ok(card) => r matches Ok(a) && {
                    &&& is_agent_id(a@.agent_id)
                    &&& a@.last_seen_at matches Some(seen) && seen.nanos < 1_000_000_000
                    &&& a@.created_at.nanos < 1_000_000_000
                    &&& a@.card == Some(card@)
                    &&& a@.base_url == input.base_url@
                    &&& a@.last_seen_at matches Some(seen) && a@ == connected_agent(
                        a@.agent_id,
                        input.base_url@,
                        card@,
                        seen,
                        a@.created_at,
                    )
                    &&& final(self).store.agents_view() == put_id(
                        old(self).store.agents_view(),
                        a@,
                        agent_key(),
                    )
                },
                Err(e) => {
                    &&& r matches Err(m) && m@ == "Failed to resolve agent card: "@ + e@
                    &&& final(self).store.agents_view() == old(self).store.agents_view()
                },
            },
    {
        match resolved {
            Ok(card) => Ok(self.store.register_agent(input.base_url, card)),
            Err(e) => Err(join("Failed to resolve agent card: ", e.as_str())),
        }
    }

    /// `validate_agent_card`: how the card that was found measures up, or why
    /// there is none.
    pub fn validate_agent_card(resolved: Result<AgentCard, String>) -> (r: Result<CardReport, String>)
        ensures
            match resolved {
                Ok(card) => r matches Ok(rep) && {
                    &&& rep.name@ == card.name@
                    &&& rep.url@ == card.url@
                    &&& rep.protocol_version@ == card.protocol_version@
                    &&& rep.version_valid == version_supported(card.protocol_version@)
                    &&& rep.has_skills == (card.skills@.len() > 0)
                    &&& rep.skill_count == card.skills@.len()
                    &&& rep.streaming == (card.capabilities matches Some(c) && c.streaming)
                    &&& rep.push_notifications == (card.capabilities matches Some(c)
                        && c.push_notifications)
                    &&& rep.validation@ == if rep.version_valid && rep.has_skills {
                        "passed"@
                    } else {
                        "warnings"@
                    }
                },
                Err(e) => r matches Err(m) && m@ == "Validation failed: "@ + e@,
            },
    {
        match resolved {
            Ok(card) => Ok(validate_card(card)),
            Err(e) => Err(join("Validation failed: ", e.as_str())),
        }
    }

    /// `list_remote_agents`: every registered agent.
    pub fn list_remote_agents(&self) -> (r: Vec<RemoteAgent>)
        ensures
            crate::store::agent_views(r@) == self.store.agents_view(),
    {
        self.store.list_agents()
    }

    /// The request that `send_message` sends to the agent.
    pub fn send_message_request(&self, input: &SendMessageInput) -> (r: Result<
        OutboundMessage,
        String,
    >)
        requires
            self.store.wf(),
        ensures
            match lookup_id(self.store.agents_view(), input.agent_id@, agent_key()) {
                None => r matches Err(e) && e@ == "Agent not found: "@ + input.agent_id@,
                Some(a) => match a.card {
                    None => r matches Err(e) && e@ == "No agent card"@,
                    Some(c) => r matches Ok(m) && {
                        &&& m.url@ == c.url
                        &&& crate::ids::is_message_id(m.message_id@)
                        &&& crate::protocol::is_send_request(m.request, input.text@, m.message_id@)
                    },
                },
            },
    {
        self.store.prepare_message(input.agent_id.as_str(), input.text.as_str())
    }

    /// The request that `send_streaming_message` sends to the agent: the same as
    /// that of `send_message`.
    pub fn streaming_message_request(&self, input: &SendStreamingMessageInput) -> (r: Result<
        OutboundMessage,
        String,
    >)
        requires
            self.store.wf(),
        ensures
            match lookup_id(self.store.agents_view(), input.agent_id@, agent_key()) {
                None => r matches Err(e) && e@ == "Agent not found: "@ + input.agent_id@,
                Some(a) => match a.card {
                    None => r matches Err(e) && e@ == "No agent card"@,
                    Some(c) => r matches Ok(m) && {
                        &&& m.url@ == c.url
                        &&& crate::ids::is_message_id(m.message_id@)
                        &&& crate::protocol::is_send_request(m.request, input.text@, m.message_id@)
                    },
                },
            },
    {
        self.store.prepare_message(input.agent_id.as_str(), input.text.as_str())
    }

    /// Records what the agent replied to the user message `text` sent as
    /// `message_id`: the task it describes, or the report of its error member.
    pub fn record_message_reply(&mut self, text: &str, message_id: &str, body: &JsonValue) -> (r:
        Result<Task, String>)
        requires
            old(self).store.wf(),
        ensures
            final(self).store.wf(),
            final(self).store.agents_view() == old(self).store.agents_view(),
            final(self).store.push_configs_view() == old(self).store.push_configs_view(),
            match body.lookup("error"@) {
                Some(e) => {
                    &&& r matches Err(m) && m@ == "RPC error: "@ + json_text(e)
                    &&& final(self).store.tasks_view() == old(self).store.tasks_view()
                },
                None => {
                    &&& r matches Ok(t) && t@ == reply_task(*body, text@, message_id@)
                    &&& final(self).store.tasks_view() == put_id(
                        old(self).store.tasks_view(),
                        r->Ok_0@,
                        task_key(),
                    )
                },
            },
    {
        self.store.record_reply(body, text, message_id)
    }

    /// How `send_message` and `send_streaming_message` report a failure.
    pub fn error_text(e: &str) -> (r: String)
        ensures
            r@ == "Error: "@ + e@,
    {
        join("Error: ", e)
    }

    /// `send_streaming_message`: the task that was started, and where its updates come from.
    pub fn streaming_started(task: &Task) -> (r: StreamingStart)
        ensures
            r.task_id@ == task.id@,
            r.status@ == task.status@,
            r.streaming,
            r.message@ == "Task started. Use subscribe_to_task for streaming updates."@,
    {
        StreamingStart {
            task_id: task.id.clone(),
            status: task.status.clone(),
            streaming: true,
            message: "Task started. Use subscribe_to_task for streaming updates.".to_owned(),
        }
    }

    /// `get_task`: the task recorded under `input.task_id`.
    pub fn get_task(&self, input: &GetTaskInput) -> (r: Result<Task, String>)
        requires
            self.store.wf(),
        ensures
            match lookup_id(self.store.tasks_view(), input.task_id@, task_key()) {
                Some(t) => r matches Ok(x) && x@ == t,
                None => r matches Err(e) && e@ == "Task not found: "@ + input.task_id@,
            },
    {
        match self.store.get_task(input.task_id.as_str()) {
            Some(t) => Ok(t),
            None => Err(join("Task not found: ", input.task_id.as_str())),
        }
    }

    /// `list_tasks`: the recorded tasks, most recent first, at most `input.limit` of them.
    pub fn list_tasks(&self, input: &ListTasksInput) -> (r: Vec<Task>)
        ensures
            task_views(r@) == limited(self.store.tasks_view().reverse(), input.limit),
    {
        let mut tasks = self.store.list_tasks();
        let ghost all = tasks@;
        if let Some(limit) = input.limit {
            tasks.truncate(limit);
            proof {
                if limit < all.len() {
                    assert(task_views(tasks@) =~= task_views(all).take(limit as int));
                }
            }
        }
        tasks
    }

    /// `cancel_task`: cancels the task recorded under `input.task_id`.
    pub fn cancel_task(&mut self, input: &CancelTaskInput) -> (r: Result<CancelAck, String>)
        requires
            old(self).store.wf(),
        ensures
            final(self).store.wf(),
            final(self).store.agents_view() == old(self).store.agents_view(),
            final(self).store.push_configs_view() == old(self).store.push_configs_view(),
            holds_id(old(self).store.tasks_view(), input.task_id@, task_key()) ==> {
                &&& r matches Ok(ack) && ack.task_id@ == input.task_id@ && ack.status@
                    == "canceled"@
                &&& final(self).store.tasks_view() == cancel_in(
                    old(self).store.tasks_view(),
                    input.task_id@,
                )
            },
            !holds_id(old(self).store.tasks_view(), input.task_id@, task_key()) ==> {
                &&& r matches Err(e) && e@ == "Error: Task not found: "@ + input.task_id@
                &&& final(self).store.tasks_view() == old(self).store.tasks_view()
            },
    {
        match self.store.cancel_task(input.task_id.as_str()) {
            Ok(()) => Ok(CancelAck { task_id: input.task_id.clone(), status: "canceled".to_owned() }),
            Err(e) => {
                let r = join("Error: ", e.as_str());
                proof {
                    reveal_strlit("Error: ");
                    reveal_strlit("Task not found: ");
                    reveal_strlit("Error: Task not found: ");
                }
                assert(r@ =~= "Error: Task not found: "@ + input.task_id@);
                Err(r)
            },
        }
    }

    /// `subscribe_to_task`: a subscription to the events of the task recorded
    /// under `input.task_id`, with its current state.
    pub fn subscribe_to_task(&self, input: &SubscribeToTaskInput) -> (r: Result<Subscription, String>)
        requires
            self.store.wf(),
        ensures
            match lookup_id(self.store.tasks_view(), input.task_id@, task_key()) {
                Some(t) => r matches Ok(s) && {
                    &&& s.task_id@ == input.task_id@
                    &&& s.subscription@ == "active"@
                    &&& s.current_state == t.status.state
                    &&& s.message@
                        == "Subscribed to task events. Updates will be delivered via push notifications if configured."@
                },
                None => r matches Err(e) && e@ == "Task not found: "@ + input.task_id@,
            },
    {
        match self.store.get_task(input.task_id.as_str()) {
            Some(t) => Ok(
                Subscription {
                    task_id: input.task_id.clone(),
                    subscription: "active".to_owned(),
                    current_state: t.status.state,
                    message: "Subscribed to task events. Updates will be delivered via push notifications if configured.".to_owned(),
                },
            ),
            None => Err(join("Task not found: ", input.task_id.as_str())),
        }
    }

    /// `configure_push_notifications`: creates, or updates, the config of
    /// `input.agent_id` for `input.webhook_url`, for the events named, or for
    /// status and artifact updates where none are named. An update keeps the
    /// config's id, creation time and place.
    pub fn configure_push_notifications(&mut self, input: ConfigurePushNotificationsInput) -> (r:
        PushNotificationConfig)
        requires
            old(self).store.wf(),
        ensures
            final(self).store.wf(),
            r@ == active_push_config(
                r@.config_id,
                input.agent_id@,
                input.webhook_url@,
                match input.events {
                    Some(e) => strings_view(e@),
                    None => default_push_events(),
                },
                r@.created_at,
            ),
            has_target(old(self).store.push_configs_view(), input.agent_id@, input.webhook_url@) ==> {
                let c = old(self).store.push_configs_view()[target_position(
                    old(self).store.push_configs_view(),
                    input.agent_id@,
                    input.webhook_url@,
                )];
                &&& r@.config_id == c.config_id
                &&& r@.created_at == c.created_at
            },
            !has_target(old(self).store.push_configs_view(), input.agent_id@, input.webhook_url@) ==> {
                &&& is_push_config_id(r@.config_id)
                &&& r@.created_at.nanos < 1_000_000_000
            },
            final(self).store.push_configs_view() == set_config(old(self).store.push_configs_view(), r@),
            final(self).store.agents_view() == old(self).store.agents_view(),
            final(self).store.tasks_view() == old(self).store.tasks_view(),
    {
        let events = match input.events {
            Some(e) => e,
            None => {
                let mut d: Vec<String> = Vec::new();
                d.push("status_update".to_owned());
                d.push("artifact_update".to_owned());
                assert(strings_view(d@) =~= default_push_events());
                d
            },
        };
        self.store.add_push_config(input.agent_id, input.webhook_url, events)
    }

    /// `get_extended_agent_card`: the full record of the agent `input.agent_id`.
    pub fn get_extended_agent_card(&self, input: &GetExtendedAgentCardInput) -> (r: Result<
        RemoteAgent,
        String,
    >)
        requires
            self.store.wf(),
        ensures
            match lookup_id(self.store.agents_view(), input.agent_id@, agent_key()) {
                Some(a) => r matches Ok(x) && x@ == a,
                None => r matches Err(e) && e@ == "Agent not found: "@ + input.agent_id@,
            },
    {
        match self.store.find_agent(input.agent_id.as_str()) {
            Some(a) => Ok(a),
            None => Err(join("Agent not found: ", input.agent_id.as_str())),
        }
    }
}

} // verus!
