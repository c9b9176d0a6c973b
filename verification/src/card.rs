//! Agent cards: where to find one, and how one measures up.

use vstd::prelude::*;

use crate::text::{has_prefix, join, starts_with, trim_end_slashes, trim_slashes};
use crate::transport::{transport_reason, TransportError};
use crate::types::{AgentCapabilities, AgentCard};

verus! {

/// How many well-known locations an agent card is looked for at.
pub const CARD_PATH_COUNT: usize = 2;

/// The well-known location of an agent card, the standard one first and then
/// the older one.
pub open spec fn card_path(i: int) -> Seq<char> {
    if i == 0 {
        "/.well-known/agent-card.json"@
    } else {
        "/.well-known/agent.json"@
    }
}

/// Where an agent at `base_url` publishes its card at location `i`.
pub open spec fn card_url(base_url: Seq<char>, i: int) -> Seq<char> {
    trim_slashes(base_url) + card_path(i)
}

fn card_path_text(i: usize) -> (r: &'static str)
    ensures
        r@ == card_path(i as int),
{
    if i == 0 {
        "/.well-known/agent-card.json"
    } else {
        "/.well-known/agent.json"
    }
}

/// The address of the card at location `i` of the agent at `base_url`.
pub fn card_location(base_url: &str, i: usize) -> (r: String)
    ensures
        r@ == card_url(base_url@, i as int),
{
    let base = trim_end_slashes(base_url);
    join(base.as_str(), card_path_text(i))
}

/// What to do next while looking for an agent's card.
pub enum ResolveStep {
    /// Fetch the card at this address.
    Fetch(String),
    /// The search is over.
    Done(Result<AgentCard, String>),
}

/// Why fetching a card at one location gave no card.
pub enum FetchFailure {
    /// The agent answered, but not with a card.
    NoCard,
    /// The agent could not be reached.
    Unreachable(TransportError),
}

/// Why the search failed, once the last location gave `last`: where the agent
/// never answered and the last location refused the connection (the agent is
/// not running), that refusal; in every other case, no card was found at its
/// base URL.
pub open spec fn search_failure(base_url: Seq<char>, answered: bool, last: FetchFailure) -> Seq<char> {
    match last {
        FetchFailure::Unreachable(TransportError::Connect) => if answered {
            "No agent card found at "@ + base_url
        } else {
            transport_reason(TransportError::Connect)
        },
        _ => "No agent card found at "@ + base_url,
    }
}

/// The search for the card of the agent at a base URL: its locations are tried
/// in turn, and the first that yields a card ends the search.
pub struct CardResolver {
    base_url: String,
    attempt: usize,
    answered: bool,
}

impl CardResolver {
    /// The base URL the search is for.
    pub closed spec fn base(&self) -> Seq<char> {
        self.base_url@
    }

    /// The location being fetched.
    pub closed spec fn location(&self) -> int {
        self.attempt as int
    }

    /// Whether the agent answered at some location tried before.
    pub closed spec fn answered(&self) -> bool {
        self.answered
    }

    /// Starts the search at the first location; returns the address to fetch.
    pub fn start(base_url: &str) -> (r: (CardResolver, String))
        ensures
            r.0.base() == base_url@,
            r.0.location() == 0,
            !r.0.answered(),
            r.1@ == card_url(base_url@, 0),
    {
        let url = card_location(base_url, 0);
        (CardResolver { base_url: base_url.to_owned(), attempt: 0, answered: false }, url)
    }

    /// Takes what fetching the current location gave (a card, or why there is
    /// none) and says what comes next: the card; the next location; or, past
    /// the last one, why the search failed.
    pub fn on_fetched(&mut self, fetched: Result<AgentCard, FetchFailure>) -> (r: ResolveStep)
        ensures
            final(self).base() == old(self).base(),
            match fetched {
                Ok(card) => {
                    &&& r == ResolveStep::Done(Ok(card))
                    &&& final(self).location() == old(self).location()
                    &&& final(self).answered() == old(self).answered()
                },
                Err(f) => {
                    &&& final(self).answered() == (old(self).answered() || f is NoCard)
                    &&& if old(self).location() + 1 < CARD_PATH_COUNT {
                        &&& r matches ResolveStep::Fetch(url) && url@ == card_url(
                            old(self).base(),
                            old(self).location() + 1,
                        )
                        &&& final(self).location() == old(self).location() + 1
                    } else {
                        &&& r matches ResolveStep::Done(Err(e)) && e@ == search_failure(
                            old(self).base(),
                            old(self).answered(),
                            f,
                        )
                        &&& final(self).location() == old(self).location()
                    }
                },
            },
    {
        match fetched {
            Ok(card) => ResolveStep::Done(Ok(card)),
            Err(f) => {
                let was_answered = self.answered;
                let answered_now = match &f {
                    FetchFailure::NoCard => true,
                    FetchFailure::Unreachable(_) => false,
                };
                self.answered = was_answered || answered_now;
                if self.attempt < CARD_PATH_COUNT - 1 {
                    self.attempt = self.attempt + 1;
                    ResolveStep::Fetch(card_location(self.base_url.as_str(), self.attempt))
                } else {
                    match f {
                        FetchFailure::Unreachable(TransportError::Connect) if !was_answered => {
                            ResolveStep::Done(Err(TransportError::Connect.reason()))
                        },
                        _ => ResolveStep::Done(
                            Err(join("No agent card found at ", self.base_url.as_str())),
                        ),
                    }
                }
            },
        }
    }
}

/// A protocol version this client talks: a 0.x or a 1.x one.
pub open spec fn version_supported(v: Seq<char>) -> bool {
    has_prefix(v, "0."@) || has_prefix(v, "1."@)
}

/// How an agent card measures up.
#[derive(Debug)]
pub struct CardReport {
    pub name: String,
    pub url: String,
    pub protocol_version: String,
    /// The protocol version is a supported one.
    pub version_valid: bool,
    /// The card declares at least one skill.
    pub has_skills: bool,
    pub skill_count: usize,
    pub streaming: bool,
    pub push_notifications: bool,
    /// "passed" where the version is supported and there are skills, else "warnings".
    pub validation: String,
}

/// Checks a card: its protocol version, its skills and its capabilities (none
/// declared counting as none offered).
pub fn validate_card(card: AgentCard) -> (r: CardReport)
    ensures
        r.name@ == card.name@,
        r.url@ == card.url@,
        r.protocol_version@ == card.protocol_version@,
        r.version_valid == version_supported(card.protocol_version@),
        r.has_skills == (card.skills@.len() > 0),
        r.skill_count == card.skills@.len(),
        r.streaming == (card.capabilities matches Some(c) && c.streaming),
        r.push_notifications == (card.capabilities matches Some(c) && c.push_notifications),
        r.validation@ == if r.version_valid && r.has_skills {
            "passed"@
        } else {
            "warnings"@
        },
{
    let version_valid = starts_with(card.protocol_version.as_str(), "0.") || starts_with(
        card.protocol_version.as_str(),
        "1.",
    );
    let has_skills = card.skills.len() > 0;
    let caps = match card.capabilities {
        Some(c) => c,
        None => AgentCapabilities {
            streaming: false,
            push_notifications: false,
            state_transition_history: false,
        },
    };
    let validation = if version_valid && has_skills {
        "passed".to_owned()
    } else {
        "warnings".to_owned()
    };
    let skill_count = card.skills.len();
    CardReport {
        name: card.name,
        url: card.url,
        protocol_version: card.protocol_version,
        version_valid,
        has_skills,
        skill_count,
        streaming: caps.streaming,
        push_notifications: caps.push_notifications,
        validation,
    }
}

} // verus!
