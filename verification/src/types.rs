//! The records the registry keeps: agent cards, remote agents, tasks,
//! messages and push-notification configs, each with a mathematical view.

use vstd::prelude::*;

verus! {

/// Optional features an agent card declares.
#[derive(Clone, Copy, Debug, PartialEq, Eq, Structural)]
pub struct AgentCapabilities {
    pub streaming: bool,
    pub push_notifications: bool,
    pub state_transition_history: bool,
}

/// A point in time: seconds since the Unix epoch and the nanoseconds within that second.
#[derive(Clone, Copy, Debug, PartialEq, Eq, Structural)]
pub struct Timestamp {
    pub secs: i64,
    pub nanos: u32,
}

/// One skill that an agent card advertises.
#[derive(Debug)]
pub struct AgentSkill {
    pub id: String,
    pub name: String,
    pub description: String,
    pub tags: Vec<String>,
}

/// Abstract value of an [`AgentSkill`].
pub struct SkillView {
    pub id: Seq<char>,
    pub name: Seq<char>,
    pub description: Seq<char>,
    pub tags: Seq<Seq<char>>,
}

/// The characters of each string.
pub open spec fn strings_view(v: Seq<String>) -> Seq<Seq<char>> {
    v.map_values(|s: String| s@)
}

impl View for AgentSkill {
    type V = SkillView;

    open spec fn view(&self) -> SkillView {
        SkillView {
            id: self.id@,
            name: self.name@,
            description: self.description@,
            tags: strings_view(self.tags@),
        }
    }
}

/// A copy of a list of strings.
pub fn clone_strings(v: &Vec<String>) -> (r: Vec<String>)
    ensures
        strings_view(r@) == strings_view(v@),
{
    let r = v.clone();
    assert(strings_view(r@) =~= strings_view(v@));
    r
}

impl Clone for AgentSkill {
    fn clone(&self) -> (r: Self)
        ensures
            r@ == self@,
    {
        AgentSkill {
            id: self.id.clone(),
            name: self.name.clone(),
            description: self.description.clone(),
            tags: clone_strings(&self.tags),
        }
    }
}


/// The self-description an agent publishes at its well-known URL.
#[derive(Debug)]
pub struct AgentCard {
    pub name: String,
    pub description: String,
    pub url: String,
    pub version: String,
    pub protocol_version: String,
    pub capabilities: Option<AgentCapabilities>,
    pub skills: Vec<AgentSkill>,
}

/// Abstract value of an [`AgentCard`].
pub struct CardView {
    pub name: Seq<char>,
    pub description: Seq<char>,
    pub url: Seq<char>,
    pub version: Seq<char>,
    pub protocol_version: Seq<char>,
    pub capabilities: Option<AgentCapabilities>,
    pub skills: Seq<SkillView>,
}

impl View for AgentCard {
    type V = CardView;

    open spec fn view(&self) -> CardView {
        CardView {
            name: self.name@,
            description: self.description@,
            url: self.url@,
            version: self.version@,
            protocol_version: self.protocol_version@,
            capabilities: self.capabilities,
            skills: self.skills@.map_values(|k: AgentSkill| k@),
        }
    }
}

impl Clone for AgentCard {
    fn clone(&self) -> (r: Self)
        ensures
            r@ == self@,
    {
        let skills = self.skills.clone();
        assert(skills@.map_values(|k: AgentSkill| k@) =~= self.skills@.map_values(
            |k: AgentSkill| k@,
        ));
        AgentCard {
            name: self.name.clone(),
            description: self.description.clone(),
            url: self.url.clone(),
            version: self.version.clone(),
            protocol_version: self.protocol_version.clone(),
            capabilities: self.capabilities,
            skills,
        }
    }
}

/// The characters of an optional string.
pub open spec fn opt_string_view(s: Option<String>) -> Option<Seq<char>> {
    match s {
        Some(x) => Some(x@),
        None => None,
    }
}

/// A copy of an optional string.
pub fn clone_opt_string(s: &Option<String>) -> (r: Option<String>)
    ensures
        opt_string_view(r) == opt_string_view(*s),
{
    match s {
        Some(x) => Some(x.clone()),
        None => None,
    }
}

/// A remote agent known to the registry.
#[derive(Debug)]
pub struct RemoteAgent {
    pub agent_id: String,
    pub name: String,
    pub base_url: String,
    pub status: String,
    pub card: Option<AgentCard>,
    pub auth_mode: Option<String>,
    pub last_seen_at: Option<Timestamp>,
    pub created_at: Timestamp,
}

/// Abstract value of a [`RemoteAgent`].
pub struct AgentView {
    pub agent_id: Seq<char>,
    pub name: Seq<char>,
    pub base_url: Seq<char>,
    pub status: Seq<char>,
    pub card: Option<CardView>,
    pub auth_mode: Option<Seq<char>>,
    pub last_seen_at: Option<Timestamp>,
    pub created_at: Timestamp,
}

impl View for RemoteAgent {
    type V = AgentView;

    open spec fn view(&self) -> AgentView {
        AgentView {
            agent_id: self.agent_id@,
            name: self.name@,
            base_url: self.base_url@,
            status: self.status@,
            card: match self.card {
                Some(c) => Some(c@),
                None => None,
            },
            auth_mode: opt_string_view(self.auth_mode),
            last_seen_at: self.last_seen_at,
            created_at: self.created_at,
        }
    }
}

impl Clone for RemoteAgent {
    fn clone(&self) -> (r: Self)
        ensures
            r@ == self@,
    {
        RemoteAgent {
            agent_id: self.agent_id.clone(),
            name: self.name.clone(),
            base_url: self.base_url.clone(),
            status: self.status.clone(),
            card: match &self.card {
                Some(c) => Some(c.clone()),
                None => None,
            },
            auth_mode: clone_opt_string(&self.auth_mode),
            last_seen_at: self.last_seen_at,
            created_at: self.created_at,
        }
    }
}

/// The record of an agent registered as `connected` from its card.
pub open spec fn connected_agent(
    agent_id: Seq<char>,
    base_url: Seq<char>,
    card: CardView,
    last_seen_at: Timestamp,
    created_at: Timestamp,
) -> AgentView {
    AgentView {
        agent_id,
        name: card.name,
        base_url,
        status: "connected"@,
        card: Some(card),
        auth_mode: None,
        last_seen_at: Some(last_seen_at),
        created_at,
    }
}

impl RemoteAgent {
    /// An agent registered as `connected`, named after its card, with no auth mode.
    pub fn connected(
        agent_id: String,
        base_url: String,
        card: AgentCard,
        last_seen_at: Timestamp,
        created_at: Timestamp,
    ) -> (r: RemoteAgent)
        ensures
            r@ == connected_agent(agent_id@, base_url@, card@, last_seen_at, created_at),
            r@.agent_id == agent_id@,
            r@.base_url == base_url@,
            r@.name == card@.name,
            r@.card == Some(card@),
            r@.status == "connected"@,
    {
        RemoteAgent {
            agent_id,
            name: card.name.clone(),
            base_url,
            status: "connected".to_owned(),
            card: Some(card),
            auth_mode: None,
            last_seen_at: Some(last_seen_at),
            created_at,
        }
    }
}

/// Lifecycle state of a remote task.
#[derive(Clone, Copy, Debug, PartialEq, Eq, Structural)]
pub enum TaskState {
    Submitted,
    Working,
    InputRequired,
    Completed,
    Failed,
    Canceled,
}

/// State of a task, with an optional note on how it got there.
#[derive(Debug)]
pub struct TaskStatus {
    pub state: TaskState,
    pub message: Option<String>,
}

/// Abstract value of a [`TaskStatus`].
pub struct StatusView {
    pub state: TaskState,
    pub message: Option<Seq<char>>,
}

impl View for TaskStatus {
    type V = StatusView;

    open spec fn view(&self) -> StatusView {
        StatusView { state: self.state, message: opt_string_view(self.message) }
    }
}

impl Clone for TaskStatus {
    fn clone(&self) -> (r: Self)
        ensures
            r@ == self@,
    {
        TaskStatus { state: self.state, message: clone_opt_string(&self.message) }
    }
}

/// One piece of a message's content.
#[derive(Debug)]
pub enum Part {
    Text { text: String },
}

/// Abstract value of a [`Part`].
pub enum PartView {
    Text { text: Seq<char> },
}

impl View for Part {
    type V = PartView;

    open spec fn view(&self) -> PartView {
        match self {
            Part::Text { text } => PartView::Text { text: text@ },
        }
    }
}

impl Clone for Part {
    fn clone(&self) -> (r: Self)
        ensures
            r@ == self@,
    {
        match self {
            Part::Text { text } => Part::Text { text: text.clone() },
        }
    }
}

/// One message of a task's conversation.
#[derive(Debug)]
pub struct Message {
    pub role: String,
    pub parts: Vec<Part>,
    pub message_id: Option<String>,
    pub task_id: Option<String>,
}

/// Abstract value of a [`Message`].
pub struct MessageView {
    pub role: Seq<char>,
    pub parts: Seq<PartView>,
    pub message_id: Option<Seq<char>>,
    pub task_id: Option<Seq<char>>,
}

impl View for Message {
    type V = MessageView;

    open spec fn view(&self) -> MessageView {
        MessageView {
            role: self.role@,
            parts: self.parts@.map_values(|p: Part| p@),
            message_id: opt_string_view(self.message_id),
            task_id: opt_string_view(self.task_id),
        }
    }
}

impl Clone for Message {
    fn clone(&self) -> (r: Self)
        ensures
            r@ == self@,
    {
        let parts = self.parts.clone();
        assert(parts@.map_values(|p: Part| p@) =~= self.parts@.map_values(|p: Part| p@));
        Message {
            role: self.role.clone(),
            parts,
            message_id: clone_opt_string(&self.message_id),
            task_id: clone_opt_string(&self.task_id),
        }
    }
}

/// Output of a task: the parts an agent produced.
#[derive(Debug)]
pub struct Artifact {
    pub artifact_id: Option<String>,
    pub name: Option<String>,
    pub parts: Vec<Part>,
}

/// Abstract value of an [`Artifact`].
pub struct ArtifactView {
    pub artifact_id: Option<Seq<char>>,
    pub name: Option<Seq<char>>,
    pub parts: Seq<PartView>,
}

/// The abstract values of a list of parts.
pub open spec fn parts_view(v: Seq<Part>) -> Seq<PartView> {
    v.map_values(|p: Part| p@)
}

impl View for Artifact {
    type V = ArtifactView;

    open spec fn view(&self) -> ArtifactView {
        ArtifactView {
            artifact_id: opt_string_view(self.artifact_id),
            name: opt_string_view(self.name),
            parts: parts_view(self.parts@),
        }
    }
}

impl Clone for Artifact {
    fn clone(&self) -> (r: Self)
        ensures
            r@ == self@,
    {
        let parts = self.parts.clone();
        assert(parts_view(parts@) =~= parts_view(self.parts@));
        Artifact {
            artifact_id: clone_opt_string(&self.artifact_id),
            name: clone_opt_string(&self.name),
            parts,
        }
    }
}

/// The abstract values of a list of artifacts.
pub open spec fn artifacts_view(v: Seq<Artifact>) -> Seq<ArtifactView> {
    v.map_values(|a: Artifact| a@)
}

/// A remote task as the registry records it.
#[derive(Debug)]
pub struct Task {
    pub id: String,
    pub context_id: Option<String>,
    pub status: TaskStatus,
    pub history: Option<Vec<Message>>,
    pub artifacts: Option<Vec<Artifact>>,
}

/// Abstract value of a [`Task`].
pub struct TaskView {
    pub id: Seq<char>,
    pub context_id: Option<Seq<char>>,
    pub status: StatusView,
    pub history: Option<Seq<MessageView>>,
    pub artifacts: Option<Seq<ArtifactView>>,
}

/// The abstract values of a list of messages.
pub open spec fn messages_view(v: Seq<Message>) -> Seq<MessageView> {
    v.map_values(|m: Message| m@)
}

impl View for Task {
    type V = TaskView;

    open spec fn view(&self) -> TaskView {
        TaskView {
            id: self.id@,
            context_id: opt_string_view(self.context_id),
            status: self.status@,
            history: match self.history {
                Some(h) => Some(messages_view(h@)),
                None => None,
            },
            artifacts: match self.artifacts {
                Some(a) => Some(artifacts_view(a@)),
                None => None,
            },
        }
    }
}

impl Clone for Task {
    fn clone(&self) -> (r: Self)
        ensures
            r@ == self@,
    {
        let history = match &self.history {
            Some(h) => {
                let c = h.clone();
                assert(messages_view(c@) =~= messages_view(h@));
                Some(c)
            },
            None => None,
        };
        let artifacts = match &self.artifacts {
            Some(a) => {
                let c = a.clone();
                assert(artifacts_view(c@) =~= artifacts_view(a@));
                Some(c)
            },
            None => None,
        };
        Task {
            id: self.id.clone(),
            context_id: clone_opt_string(&self.context_id),
            status: self.status.clone(),
            history,
            artifacts,
        }
    }
}

/// A webhook that wants to hear about task events of an agent.
#[derive(Debug)]
pub struct PushNotificationConfig {
    pub config_id: String,
    pub agent_id: String,
    pub webhook_url: String,
    pub events: Vec<String>,
    pub active: bool,
    pub created_at: Timestamp,
}

/// Abstract value of a [`PushNotificationConfig`].
pub struct PushConfigView {
    pub config_id: Seq<char>,
    pub agent_id: Seq<char>,
    pub webhook_url: Seq<char>,
    pub events: Seq<Seq<char>>,
    pub active: bool,
    pub created_at: Timestamp,
}

impl View for PushNotificationConfig {
    type V = PushConfigView;

    open spec fn view(&self) -> PushConfigView {
        PushConfigView {
            config_id: self.config_id@,
            agent_id: self.agent_id@,
            webhook_url: self.webhook_url@,
            events: strings_view(self.events@),
            active: self.active,
            created_at: self.created_at,
        }
    }
}

/// An active push-notification config.
pub open spec fn active_push_config(
    config_id: Seq<char>,
    agent_id: Seq<char>,
    webhook_url: Seq<char>,
    events: Seq<Seq<char>>,
    created_at: Timestamp,
) -> PushConfigView {
    PushConfigView { config_id, agent_id, webhook_url, events, active: true, created_at }
}

impl PushNotificationConfig {
    /// An active config for the webhook `webhook_url`, for the events `events` of agent `agent_id`.
    pub fn active(
        config_id: String,
        agent_id: String,
        webhook_url: String,
        events: Vec<String>,
        created_at: Timestamp,
    ) -> (r: PushNotificationConfig)
        ensures
            r@ == active_push_config(
                config_id@,
                agent_id@,
                webhook_url@,
                strings_view(events@),
                created_at,
            ),
    {
        PushNotificationConfig { config_id, agent_id, webhook_url, events, active: true, created_at }
    }
}

impl Clone for PushNotificationConfig {
    fn clone(&self) -> (r: Self)
        ensures
            r@ == self@,
    {
        PushNotificationConfig {
            config_id: self.config_id.clone(),
            agent_id: self.agent_id.clone(),
            webhook_url: self.webhook_url.clone(),
            events: clone_strings(&self.events),
            active: self.active,
            created_at: self.created_at,
        }
    }
}

} // verus!
