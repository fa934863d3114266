//! Runs of the dream specialists, from the first peer to the report.

use honcho::dreamer::run::{
    conclude, plan_tool_loop, DreamerToolMetrics, LoopOutcome, LoopResponse, RunAction, RunReply,
    RunRequest, RunState, ToolLoopPlan, UnexpectedReply,
};
use honcho::dreamer::specialists::{
    deduction_system_prompt, deduction_user_prompt, induction_system_prompt,
    induction_user_prompt, SpecialistKind, ToolCatalog,
};
use serde_json::Value;

type Action = RunAction<u64, f64, String>;
type Reply = RunReply<u64, f64, String>;

fn json(text: &str) -> Value {
    serde_json::from_str(text).unwrap()
}

fn catalog() -> ToolCatalog {
    ToolCatalog {
        deduction: vec![
            json(r#"{"name": "update_peer_card"}"#),
            json(r#"{"name": "search_memory"}"#),
        ],
        induction: vec![json(r#"{"name": "search_messages"}"#)],
    }
}

fn request(kind: SpecialistKind, observed: &str, peer_card_create: bool) -> RunRequest {
    RunRequest {
        kind,
        workspace_name: "ws".to_string(),
        observer: "alice".to_string(),
        observed: observed.to_string(),
        session_name: Some("s1".to_string()),
        hints: Some(vec!["h1".to_string()]),
        peer_card_create,
        max_output_tokens: None,
        parent_run_id: "run-7".to_string(),
        honcho_version: Some("3.0.11".to_string()),
        deduplicate: true,
    }
}

fn metrics() -> DreamerToolMetrics {
    DreamerToolMetrics {
        created_observation_count: 3,
        deleted_observation_count: 1,
        created_counts_by_level: vec![("deductive".to_string(), 2), ("inductive".to_string(), 1)],
        deleted_counts_by_level: vec![("explicit".to_string(), 1)],
        peer_card_updated: true,
        search_tool_calls_count: 4,
    }
}

fn answered(content: &str) -> LoopOutcome {
    LoopOutcome::Answered {
        response: LoopResponse {
            content: json(content),
            iterations: 6,
            tool_calls_made: 9,
            input_tokens: 100,
            output_tokens: 20,
        },
        metrics: metrics(),
    }
}

fn ended(outcome: LoopOutcome) -> Reply {
    RunReply::LoopEnded { outcome, duration_ms: 12.5, timestamp: 99 }
}

fn begin(request: RunRequest) -> (RunState, Action) {
    RunState::start(request, catalog())
}

fn next(state: RunState, reply: Reply) -> (RunState, Action) {
    match state.advance(reply) {
        Ok(step) => step,
        Err(UnexpectedReply) => panic!("the reply was refused"),
    }
}

fn peer(action: Action) -> String {
    match action {
        RunAction::CreatePeer { workspace_name, peer } => {
            assert_eq!(workspace_name, "ws");
            peer
        }
        _ => panic!("a peer was expected"),
    }
}

fn plan(action: Action) -> ToolLoopPlan {
    match action {
        RunAction::RunToolLoop { plan } => plan,
        _ => panic!("a plan was expected"),
    }
}

fn message(role: &str, content: String) -> Value {
    let mut members = serde_json::Map::new();
    members.insert("role".to_string(), Value::String(role.to_string()));
    members.insert("content".to_string(), Value::String(content));
    Value::Object(members)
}

#[test]
fn deduction_run_makes_every_call() {
    let (state, action) = begin(request(SpecialistKind::Deduction, "bob", true));
    assert_eq!(peer(action), "alice");
    let (state, action) = next(state, RunReply::PeerReady);
    assert_eq!(peer(action), "bob");
    let (state, action) = next(state, RunReply::PeerReady);
    match action {
        RunAction::FetchPeerCard { workspace_name, observer, observed } => {
            assert_eq!(workspace_name, "ws");
            assert_eq!(observer, "alice");
            assert_eq!(observed, "bob");
        }
        _ => panic!("the peer card was expected"),
    }
    let card = Some(json(r#"{"peer_card": ["IDENTITY: Name: Bob", 3]}"#));
    let (state, action) = next(state, RunReply::PeerCard { card });
    let plan = plan(action);
    let hints = vec!["h1".to_string()];
    let facts = vec!["IDENTITY: Name: Bob".to_string()];
    assert_eq!(
        plan.messages,
        vec![
            message("system", deduction_system_prompt("bob", true)),
            message("user", deduction_user_prompt("bob", Some(&hints), Some(&facts))),
        ]
    );
    assert_eq!(plan.tools, catalog().deduction);
    assert_eq!(plan.max_iterations, 12);
    assert_eq!(plan.max_output_tokens, 8192);
    assert_eq!(plan.prompt, "");
    assert_eq!(plan.settings.workspace_name, "ws");
    assert_eq!(plan.settings.observer, "alice");
    assert_eq!(plan.settings.observed, "bob");
    assert_eq!(plan.settings.session_name, Some("s1".to_string()));
    assert!(plan.settings.include_observation_ids);
    assert!(plan.settings.peer_card_create);
    assert_eq!(plan.settings.run_id, "run-7");
    assert_eq!(plan.settings.agent_type, "deduction");
    assert_eq!(plan.settings.parent_category, "dream");
    assert_eq!(plan.settings.honcho_version, Some("3.0.11".to_string()));
    assert!(plan.settings.deduplicate);
    let (state, action) = next(state, ended(answered(r#""done""#)));
    assert!(matches!(state, RunState::Finished));
    match action {
        RunAction::Report { event, result } => {
            assert!(result.success);
            assert_eq!(result.content, "done");
            assert_eq!(event.timestamp, 99);
            assert_eq!(event.observed, "bob");
        }
        _ => panic!("a report was expected"),
    }
}

#[test]
fn observer_who_observes_itself_is_created_once() {
    let (state, action) = begin(request(SpecialistKind::Deduction, "alice", true));
    assert_eq!(peer(action), "alice");
    let (_, action) = next(state, RunReply::PeerReady);
    assert!(matches!(action, RunAction::FetchPeerCard { .. }));
}

#[test]
fn disabled_peer_card_is_not_fetched() {
    let (state, _) = begin(request(SpecialistKind::Deduction, "alice", false));
    let (_, action) = next(state, RunReply::PeerReady);
    let plan = plan(action);
    let hints = vec!["h1".to_string()];
    assert_eq!(
        plan.messages,
        vec![
            message("system", deduction_system_prompt("alice", false)),
            message("user", deduction_user_prompt("alice", Some(&hints), None)),
        ]
    );
    assert_eq!(plan.tools, vec![json(r#"{"name": "search_memory"}"#)]);
    assert!(!plan.settings.peer_card_create);
}

#[test]
fn induction_never_fetches_the_peer_card() {
    let (state, _) = begin(request(SpecialistKind::Induction, "bob", true));
    let (state, action) = next(state, RunReply::PeerReady);
    assert_eq!(peer(action), "bob");
    let (_, action) = next(state, RunReply::PeerReady);
    let plan = plan(action);
    let hints = vec!["h1".to_string()];
    assert_eq!(
        plan.messages,
        vec![
            message("system", induction_system_prompt("bob")),
            message("user", induction_user_prompt("bob", Some(&hints))),
        ]
    );
    assert_eq!(plan.tools, catalog().induction);
    assert_eq!(plan.max_iterations, 10);
    assert!(plan.settings.peer_card_create);
    assert_eq!(plan.settings.agent_type, "induction");
}

#[test]
fn absent_peer_card_is_not_shown() {
    let (state, _) = begin(request(SpecialistKind::Deduction, "alice", true));
    let (state, _) = next(state, RunReply::PeerReady);
    let (_, action) = next(state, RunReply::PeerCard { card: None });
    let hints = vec!["h1".to_string()];
    assert_eq!(
        plan(action).messages[1],
        message("user", deduction_user_prompt("alice", Some(&hints), None))
    );
}

#[test]
fn store_failure_ends_the_run_without_a_report() {
    let failed = || RunReply::StoreFailed { error: "down".to_string() };
    let fails = |state: RunState| {
        let (state, action) = next(state, failed());
        assert!(matches!(state, RunState::Finished));
        match action {
            RunAction::Fail { error } => assert_eq!(error, "down"),
            _ => panic!("a failure was expected"),
        }
    };
    let start = || begin(request(SpecialistKind::Deduction, "bob", true)).0;
    fails(start());
    fails(next(start(), RunReply::PeerReady).0);
    fails(next(next(start(), RunReply::PeerReady).0, RunReply::PeerReady).0);
}

#[test]
fn replies_to_something_else_are_refused() {
    let start = || begin(request(SpecialistKind::Deduction, "bob", true)).0;
    let fetching = || next(next(start(), RunReply::PeerReady).0, RunReply::PeerReady).0;
    let running = || next(fetching(), RunReply::PeerCard { card: None }).0;
    let finished = || next(running(), ended(answered("null"))).0;
    let ready: fn() -> Reply = || RunReply::PeerReady;
    let card: fn() -> Reply = || RunReply::PeerCard { card: None };
    let failed: fn() -> Reply = || RunReply::StoreFailed { error: "down".to_string() };
    let over: fn() -> Reply = || ended(LoopOutcome::Failed { error: "x".to_string() });
    for reply in [card, over] {
        assert_eq!(start().advance(reply()).err(), Some(UnexpectedReply));
    }
    for reply in [ready, over] {
        assert_eq!(fetching().advance(reply()).err(), Some(UnexpectedReply));
    }
    for reply in [ready, card, failed] {
        assert_eq!(running().advance(reply()).err(), Some(UnexpectedReply));
    }
    for reply in [ready, card, failed, over] {
        assert_eq!(finished().advance(reply()).err(), Some(UnexpectedReply));
    }
}

#[test]
fn positive_token_limit_counts() {
    for (configured, expected) in
        [(Some(1), 1), (Some(20_000), 20_000), (Some(0), 8192), (Some(-5), 8192), (None, 8192)]
    {
        let mut request = request(SpecialistKind::Induction, "bob", true);
        request.max_output_tokens = configured;
        assert_eq!(plan_tool_loop(&request, catalog(), None).max_output_tokens, expected);
    }
}

#[test]
fn answered_run_reports_what_was_counted() {
    let request = request(SpecialistKind::Deduction, "bob", true);
    let (result, event) = conclude(&request, answered(r#""text""#), 2.5, 7);
    assert_eq!(result.run_id, "run-7");
    assert_eq!(result.specialist_type, "deduction");
    assert_eq!(result.iterations, 6);
    assert_eq!(result.tool_calls_count, 9);
    assert_eq!(result.input_tokens, 100);
    assert_eq!(result.output_tokens, 20);
    assert_eq!(result.duration_ms, 2.5);
    assert!(result.success);
    assert_eq!(result.content, "text");
    assert_eq!(format!("{:?}", result.metrics), format!("{:?}", metrics()));
    assert_eq!(event.timestamp, 7);
    assert_eq!(event.run_id, "run-7");
    assert_eq!(event.specialist_type, "deduction");
    assert_eq!(event.workspace_name, "ws");
    assert_eq!(event.observer, "alice");
    assert_eq!(event.observed, "bob");
    assert_eq!(event.iterations, 6);
    assert_eq!(event.tool_calls_count, 9);
    assert_eq!(event.input_tokens, 100);
    assert_eq!(event.output_tokens, 20);
    assert_eq!(event.duration_ms, 2.5);
    assert!(event.success);
    assert_eq!(event.created_observation_count, 3);
    assert_eq!(event.deleted_observation_count, 1);
    assert_eq!(event.created_counts_by_level, metrics().created_counts_by_level);
    assert_eq!(event.deleted_counts_by_level, metrics().deleted_counts_by_level);
    assert!(event.peer_card_updated);
    assert_eq!(event.search_tool_calls_count, 4);
    assert_eq!(event.error_class, None);
}

#[test]
fn failed_run_counts_nothing() {
    let request = request(SpecialistKind::Induction, "bob", true);
    let outcome = LoopOutcome::Failed { error: "timeout".to_string() };
    let (result, event) = conclude(&request, outcome, 2.5, 7);
    assert_eq!(result.run_id, "run-7");
    assert_eq!(result.specialist_type, "induction");
    assert_eq!(result.iterations, 0);
    assert_eq!(result.tool_calls_count, 0);
    assert_eq!(result.input_tokens, 0);
    assert_eq!(result.output_tokens, 0);
    assert_eq!(result.duration_ms, 2.5);
    assert!(!result.success);
    assert_eq!(result.content, "");
    assert_eq!(
        format!("{:?}", result.metrics),
        format!("{:?}", DreamerToolMetrics::default())
    );
    assert!(!event.success);
    assert_eq!(event.iterations, 0);
    assert_eq!(event.created_observation_count, 0);
    assert!(event.created_counts_by_level.is_empty());
    assert!(event.deleted_counts_by_level.is_empty());
    assert!(!event.peer_card_updated);
    assert_eq!(event.search_tool_calls_count, 0);
    assert_eq!(event.workspace_name, "ws");
    assert_eq!(event.error_class, Some("timeout".to_string()));
}

#[test]
fn content_that_is_no_string_is_empty() {
    let request = request(SpecialistKind::Deduction, "bob", true);
    for content in ["null", "5", "[\"a\"]", "{\"a\": \"b\"}"] {
        assert_eq!(conclude(&request, answered(content), 0.0, 0).0.content, "");
    }
}

#[test]
fn metrics_are_copied_whole() {
    let copy = metrics().clone();
    assert_eq!(format!("{:?}", copy), format!("{:?}", metrics()));
    let nothing = DreamerToolMetrics::default();
    assert_eq!(nothing.created_observation_count, 0);
    assert!(nothing.created_counts_by_level.is_empty());
    assert!(!nothing.peer_card_updated);
}
