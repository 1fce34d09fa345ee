use chiron::coordinator::AgentCoordinator;
use chiron::coordinator::TurnStart;
use chiron::protocol::AgentContext;
use chiron::protocol::AgentMetadata;
use chiron::protocol::AgentResponse;
use chiron::protocol::Agent;
use chiron::protocol::AgentRequest;
use chiron::protocol::ResourceMap;
use chiron::research::ResearchAgent;

fn fresh_context() -> AgentContext {
    AgentContext {
        user_input: String::new(),
        session_id: "session-1".to_string(),
        therapeutic_phase: "assessment".to_string(),
        session_count: 0,
        conversation_history: Vec::new(),
        shared_resources: ResourceMap::new(),
        current_model: "test-model".to_string(),
    }
}

#[test]
fn test_registry_selects_research_agent() {
    // End to end: explicit research phrasing scores 90 and clears the
    // 50-hundredths threshold, so the research agent is selected.
    let mut coordinator: AgentCoordinator<ResearchAgent> = AgentCoordinator::new(fresh_context());
    coordinator.register_agent(ResearchAgent::new());
    match coordinator.begin_turn("research depression") {
        TurnStart::Dispatch(i, request) => {
            assert_eq!(i, 0);
            assert_eq!(request.input, "research depression");
            assert_eq!(request.context.user_input, "research depression");
            assert_eq!(coordinator.agent_at(i).name(), "research");
        }
        TurnStart::NoAgent(..) => panic!("The research agent should clear the threshold"),
    }
}

#[test]
fn test_no_agent_clears_threshold() {
    // A plain statement scores 0 for the research agent, below the
    // threshold, so the turn ends with the canned response.
    let mut coordinator: AgentCoordinator<ResearchAgent> = AgentCoordinator::new(fresh_context());
    coordinator.register_agent(ResearchAgent::new());
    match coordinator.begin_turn("I feel fine today") {
        TurnStart::NoAgent(resp, _) => {
            assert_eq!(resp.content, "No agent available to handle this request");
            assert_eq!(resp.agent_used, "none");
            assert_eq!(resp.confidence, 0);
            assert_eq!(resp.processing_time_ms, 0);
            assert!(resp.sources.is_empty());
            assert!(!resp.has_additional_context);
        }
        TurnStart::Dispatch(..) => panic!("Nothing should clear the threshold"),
    }
}

#[test]
fn test_empty_registry_gives_no_agent() {
    let mut coordinator: AgentCoordinator<ResearchAgent> = AgentCoordinator::new(fresh_context());
    match coordinator.begin_turn("research depression") {
        TurnStart::NoAgent(resp, _) => {
            assert_eq!(resp.agent_used, "none");
        }
        TurnStart::Dispatch(..) => panic!("An empty registry selects nothing"),
    }
}

#[test]
fn test_can_handle_scores() {
    let agent = ResearchAgent::new();
    let request = |input: &str| AgentRequest {
        input: input.to_string(),
        context: fresh_context(),
        parameters: ResourceMap::new(),
    };
    assert_eq!(agent.can_handle(&request("see https://en.wikipedia.org/wiki/X")), 100);
    assert_eq!(agent.can_handle(&request("research depression")), 90);
    assert_eq!(agent.can_handle(&request("what are panic attacks?")), 70);
    assert_eq!(agent.can_handle(&request("hello there")), 0);
}

#[test]
fn test_finish_turn_merges_resources() {
    let mut coordinator: AgentCoordinator<ResearchAgent> = AgentCoordinator::new(fresh_context());
    let response = AgentResponse {
        content: "found it".to_string(),
        metadata: AgentMetadata {
            agent_name: "research".to_string(),
            confidence: 80,
            processing_time_ms: 1,
            sources: vec!["wikipedia.org".to_string()],
            content_type: "markdown".to_string(),
        },
        resources_used: vec!["research_cache".to_string()],
    };
    let r = coordinator.finish_turn(response, 250);
    assert_eq!(r.content, "found it");
    assert_eq!(r.agent_used, "research");
    assert_eq!(r.confidence, 80);
    assert_eq!(r.processing_time_ms, 250);
    assert_eq!(r.sources, vec!["wikipedia.org".to_string()]);
    assert!(r.has_additional_context);
}

#[test]
fn test_finish_turn_without_resources() {
    let mut coordinator: AgentCoordinator<ResearchAgent> = AgentCoordinator::new(fresh_context());
    let response = AgentResponse {
        content: "nothing cached".to_string(),
        metadata: AgentMetadata {
            agent_name: "research".to_string(),
            confidence: 0,
            processing_time_ms: 1,
            sources: vec![],
            content_type: "text".to_string(),
        },
        resources_used: vec![],
    };
    let r = coordinator.finish_turn(response, 9);
    assert!(!r.has_additional_context);
}

#[test]
fn test_get_all_capabilities() {
    let mut coordinator: AgentCoordinator<ResearchAgent> = AgentCoordinator::new(fresh_context());
    coordinator.register_agent(ResearchAgent::new());
    let caps = coordinator.get_all_capabilities();
    assert_eq!(caps.len(), 1);
    assert_eq!(caps[0].0, "research");
    let names: Vec<&str> = caps[0].1.iter().map(|c| c.name.as_str()).collect();
    assert_eq!(names, vec!["url_research", "wikipedia_search", "intent_detection"]);
}

#[test]
fn test_reregistering_a_name_replaces() {
    let mut coordinator: AgentCoordinator<ResearchAgent> = AgentCoordinator::new(fresh_context());
    coordinator.register_agent(ResearchAgent::new());
    coordinator.register_agent(ResearchAgent::new());
    // The same name registers once: the later agent replaces the earlier.
    assert_eq!(coordinator.get_all_capabilities().len(), 1);
}

#[test]
fn test_resource_map_last_write_wins() {
    let mut m = ResourceMap::new();
    m.insert("key".to_string(), "first".to_string());
    m.insert("key".to_string(), "second".to_string());
    m.insert("other".to_string(), "third".to_string());
    assert_eq!(m.get("key"), Some(&"second".to_string()));
    assert_eq!(m.get("other"), Some(&"third".to_string()));
    assert_eq!(m.get("missing"), None);
}
