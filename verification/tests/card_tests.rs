use mcp_a2a::card::{card_location, validate_card, CardResolver, FetchFailure, ResolveStep};
use mcp_a2a::transport::{request_failed, TransportError};
use mcp_a2a::text::{starts_with, trim_end_slashes};
use mcp_a2a::types::{AgentCapabilities, AgentCard, AgentSkill};

fn card(protocol_version: &str, skills: usize, caps: Option<AgentCapabilities>) -> AgentCard {
    AgentCard {
        name: "helper_agent".to_string(),
        description: "d".to_string(),
        url: "http://localhost:8001".to_string(),
        version: "1.0.0".to_string(),
        protocol_version: protocol_version.to_string(),
        capabilities: caps,
        skills: (0..skills)
            .map(|i| AgentSkill { id: format!("s{i}"), name: "n".to_string(), description: "d".to_string(), tags: vec![] })
            .collect(),
    }
}

#[test]
fn card_locations() {
    assert_eq!(card_location("http://localhost:8003", 0), "http://localhost:8003/.well-known/agent-card.json");
    assert_eq!(card_location("http://localhost:8003//", 1), "http://localhost:8003/.well-known/agent.json");
}

#[test]
fn resolver_tries_standard_then_legacy_path() {
    let (mut r, first) = CardResolver::start("http://localhost:8001/");
    assert_eq!(first, "http://localhost:8001/.well-known/agent-card.json");
    match r.on_fetched(Err(FetchFailure::NoCard)) {
        ResolveStep::Fetch(u) => assert_eq!(u, "http://localhost:8001/.well-known/agent.json"),
        _ => panic!("expected the legacy path"),
    }
    match r.on_fetched(Err(FetchFailure::NoCard)) {
        ResolveStep::Done(Err(e)) => assert_eq!(e, "No agent card found at http://localhost:8001/"),
        _ => panic!("expected the failure"),
    }
}

#[test]
fn resolver_stops_at_first_card() {
    let (mut r, _) = CardResolver::start("http://localhost:8002");
    match r.on_fetched(Ok(card("0.2.6", 1, None))) {
        ResolveStep::Done(Ok(c)) => assert_eq!(c.name, "helper_agent"),
        _ => panic!("expected the card"),
    }
    let (mut r, _) = CardResolver::start("http://localhost:8002");
    assert!(matches!(r.on_fetched(Err(FetchFailure::Unreachable(TransportError::Timeout))), ResolveStep::Fetch(_)));
    assert!(matches!(r.on_fetched(Ok(card("1.0", 0, None))), ResolveStep::Done(Ok(_))));
}

#[test]
fn validation_passes_with_supported_version_and_skills() {
    let caps = AgentCapabilities { streaming: true, push_notifications: false, state_transition_history: true };
    let rep = validate_card(card("0.2.6", 1, Some(caps)));
    assert_eq!(rep.name, "helper_agent");
    assert_eq!(rep.url, "http://localhost:8001");
    assert_eq!(rep.protocol_version, "0.2.6");
    assert!(rep.version_valid);
    assert!(rep.has_skills);
    assert_eq!(rep.skill_count, 1);
    assert!(rep.streaming);
    assert!(!rep.push_notifications);
    assert_eq!(rep.validation, "passed");
}

#[test]
fn validation_warns() {
    let rep = validate_card(card("2.0", 3, None));
    assert!(!rep.version_valid);
    assert_eq!(rep.skill_count, 3);
    assert!(!rep.streaming);
    assert_eq!(rep.validation, "warnings");
    let rep = validate_card(card("1.1", 0, None));
    assert!(rep.version_valid);
    assert!(!rep.has_skills);
    assert_eq!(rep.validation, "warnings");
    assert!(!validate_card(card("10.0", 1, None)).version_valid);
    assert!(!validate_card(card("0", 1, None)).version_valid);
}

#[test]
fn text_helpers() {
    assert_eq!(trim_end_slashes("a/b///"), "a/b");
    assert_eq!(trim_end_slashes("///"), "");
    assert_eq!(trim_end_slashes("é/"), "é");
    assert!(starts_with("0.2.6", "0."));
    assert!(!starts_with("0", "0."));
    assert!(starts_with("abc", ""));
}

#[test]
fn unreachable_agent_reports_why() {
    let (mut r, _) = CardResolver::start("http://localhost:9");
    assert!(matches!(r.on_fetched(Err(FetchFailure::Unreachable(TransportError::Connect))), ResolveStep::Fetch(_)));
    match r.on_fetched(Err(FetchFailure::Unreachable(TransportError::Connect))) {
        ResolveStep::Done(Err(e)) => assert_eq!(e, "connection refused"),
        _ => panic!("expected the failure"),
    }
    // once the agent answered somewhere, the failure is the missing card
    let (mut r, _) = CardResolver::start("http://localhost:9");
    assert!(matches!(r.on_fetched(Err(FetchFailure::NoCard)), ResolveStep::Fetch(_)));
    match r.on_fetched(Err(FetchFailure::Unreachable(TransportError::Timeout))) {
        ResolveStep::Done(Err(e)) => assert_eq!(e, "No agent card found at http://localhost:9"),
        _ => panic!("expected the failure"),
    }
}

#[test]
fn only_a_refused_connection_is_reported_as_such() {
    let (mut r, _) = CardResolver::start("http://localhost:9");
    assert!(matches!(r.on_fetched(Err(FetchFailure::Unreachable(TransportError::Timeout))), ResolveStep::Fetch(_)));
    match r.on_fetched(Err(FetchFailure::Unreachable(TransportError::Timeout))) {
        ResolveStep::Done(Err(e)) => assert_eq!(e, "No agent card found at http://localhost:9"),
        _ => panic!("expected the failure"),
    }
    let (mut r, _) = CardResolver::start("bad url");
    assert!(matches!(r.on_fetched(Err(FetchFailure::Unreachable(TransportError::Other("builder error".to_string())))), ResolveStep::Fetch(_)));
    match r.on_fetched(Err(FetchFailure::Unreachable(TransportError::Other("builder error".to_string())))) {
        ResolveStep::Done(Err(e)) => assert_eq!(e, "No agent card found at bad url"),
        _ => panic!("expected the failure"),
    }
    let (mut r, _) = CardResolver::start("http://localhost:9");
    assert!(matches!(r.on_fetched(Err(FetchFailure::Unreachable(TransportError::Timeout))), ResolveStep::Fetch(_)));
    match r.on_fetched(Err(FetchFailure::Unreachable(TransportError::Connect))) {
        ResolveStep::Done(Err(e)) => assert_eq!(e, "connection refused"),
        _ => panic!("expected the failure"),
    }
}

#[test]
fn transport_failures() {
    assert_eq!(request_failed(&TransportError::Connect), "Request failed: connection refused");
    assert_eq!(request_failed(&TransportError::Timeout), "Request failed: timeout");
    assert_eq!(request_failed(&TransportError::Other("dns".to_string())), "Request failed: dns");
    assert_eq!(TransportError::Timeout.reason(), "timeout");
}
