//! What a run asks for, plans and reports, field by field.

use vstd::prelude::*;

use crate::dreamer::laws;
use crate::dreamer::run::{
    self, DreamSpecialistEvent, DreamerToolMetrics, LoopOutcome, LoopResponse, PlannedCall,
    RunAction, RunReply, RunRequest, RunState, SpecialistResult, ToolLoopPlan,
};
use crate::dreamer::specialists::{self, SpecialistKind, ToolCatalog};
use crate::json::{self, Json};

verus! {

/// A result, and the metrics in it, hold what their fields hold.
pub proof fn law_result_by_its_fields<D>(result: SpecialistResult<D>)
    ensures
        result@.run_id == result.run_id@,
        result@.specialist_type == result.specialist_type@,
        result@.iterations == result.iterations,
        result@.tool_calls_count == result.tool_calls_count,
        result@.input_tokens == result.input_tokens,
        result@.output_tokens == result.output_tokens,
        result@.duration_ms == result.duration_ms,
        result@.success == result.success,
        result@.content == result.content@,
        result@.metrics.created_observation_count == result.metrics.created_observation_count,
        result@.metrics.deleted_observation_count == result.metrics.deleted_observation_count,
        result@.metrics.created_counts_by_level == result.metrics.created_counts_by_level@,
        result@.metrics.deleted_counts_by_level == result.metrics.deleted_counts_by_level@,
        result@.metrics.peer_card_updated == result.metrics.peer_card_updated,
        result@.metrics.search_tool_calls_count == result.metrics.search_tool_calls_count,
{
}

/// An event holds what its fields hold.
pub proof fn law_event_by_its_fields<T, D>(event: DreamSpecialistEvent<T, D>)
    ensures
        event@.timestamp == event.timestamp,
        event@.run_id == event.run_id@,
        event@.specialist_type == event.specialist_type@,
        event@.workspace_name == event.workspace_name@,
        event@.observer == event.observer@,
        event@.observed == event.observed@,
        event@.iterations == event.iterations,
        event@.tool_calls_count == event.tool_calls_count,
        event@.input_tokens == event.input_tokens,
        event@.output_tokens == event.output_tokens,
        event@.duration_ms == event.duration_ms,
        event@.success == event.success,
        event@.metrics.created_observation_count == event.created_observation_count,
        event@.metrics.deleted_observation_count == event.deleted_observation_count,
        event@.metrics.created_counts_by_level == event.created_counts_by_level@,
        event@.metrics.deleted_counts_by_level == event.deleted_counts_by_level@,
        event@.metrics.peer_card_updated == event.peer_card_updated,
        event@.metrics.search_tool_calls_count == event.search_tool_calls_count,
        event.error_class is None ==> event@.error_class is None,
        event.error_class is Some ==> event@.error_class == Some(event.error_class->0@),
{
}

/// Metrics hold what their fields hold; those of tools that have done nothing hold
/// zeros, empty lists and no update of the card.
pub proof fn law_metrics_by_their_fields(metrics: DreamerToolMetrics)
    ensures
        metrics@.created_observation_count == metrics.created_observation_count,
        metrics@.deleted_observation_count == metrics.deleted_observation_count,
        metrics@.created_counts_by_level == metrics.created_counts_by_level@,
        metrics@.deleted_counts_by_level == metrics.deleted_counts_by_level@,
        metrics@.peer_card_updated == metrics.peer_card_updated,
        metrics@.search_tool_calls_count == metrics.search_tool_calls_count,
        run::no_metrics().created_observation_count == 0,
        run::no_metrics().deleted_observation_count == 0,
        run::no_metrics().created_counts_by_level.len() == 0,
        run::no_metrics().deleted_counts_by_level.len() == 0,
        !run::no_metrics().peer_card_updated,
        run::no_metrics().search_tool_calls_count == 0,
{
}

/// A run of either kind whose tool loop was answered returns what the loop and its
/// tools counted, under the id of the run and the name of its specialist.
pub proof fn law_answered_run_returns_what_was_counted<D>(
    request: RunRequest,
    response: LoopResponse,
    metrics: DreamerToolMetrics,
    duration_ms: D,
)
    ensures
        ({
            let outcome = LoopOutcome::Answered { response, metrics };
            let result = run::expected_result(request, outcome, duration_ms);
            &&& result.run_id == request.parent_run_id@
            &&& request.kind == SpecialistKind::Deduction ==> result.specialist_type
                == "deduction"@
            &&& request.kind == SpecialistKind::Induction ==> result.specialist_type
                == "induction"@
            &&& result.iterations == response.iterations as i64
            &&& result.tool_calls_count == response.tool_calls_made as i64
            &&& result.input_tokens == response.input_tokens
            &&& result.output_tokens == response.output_tokens
            &&& result.duration_ms == duration_ms
            &&& result.success
            &&& result.metrics == metrics@
            &&& json::json_contents(response.content) matches Json::Text(answer) ==> result.content
                == answer
            &&& !(json::json_contents(response.content) is Text) ==> result.content.len() == 0
        }),
{
}

/// A run of either kind whose tool loop was answered reports what the loop and its
/// tools counted, no error, and what it was about.
pub proof fn law_answered_run_reports_what_was_counted<T, D>(
    request: RunRequest,
    response: LoopResponse,
    metrics: DreamerToolMetrics,
    duration_ms: D,
    timestamp: T,
)
    ensures
        ({
            let outcome = LoopOutcome::Answered { response, metrics };
            let event = run::expected_event(request, outcome, duration_ms, timestamp);
            &&& event.timestamp == timestamp
            &&& event.run_id == request.parent_run_id@
            &&& request.kind == SpecialistKind::Deduction ==> event.specialist_type
                == "deduction"@
            &&& request.kind == SpecialistKind::Induction ==> event.specialist_type
                == "induction"@
            &&& event.workspace_name == request.workspace_name@
            &&& event.observer == request.observer@
            &&& event.observed == request.observed@
            &&& event.iterations == response.iterations as i64
            &&& event.tool_calls_count == response.tool_calls_made as i64
            &&& event.input_tokens == response.input_tokens
            &&& event.output_tokens == response.output_tokens
            &&& event.duration_ms == duration_ms
            &&& event.success
            &&& event.metrics == metrics@
            &&& event.error_class is None
        }),
{
}

/// A run of either kind whose tool loop failed returns and reports the error, what
/// the run was about, how long it took, and beside that zeros.
pub proof fn law_failed_run_reports_its_error<T, D>(
    request: RunRequest,
    error: String,
    duration_ms: D,
    timestamp: T,
)
    ensures
        ({
            let outcome = LoopOutcome::Failed { error };
            let result = run::expected_result(request, outcome, duration_ms);
            let event = run::expected_event(request, outcome, duration_ms, timestamp);
            &&& result.run_id == request.parent_run_id@
            &&& request.kind == SpecialistKind::Deduction ==> result.specialist_type
                == "deduction"@
            &&& request.kind == SpecialistKind::Induction ==> result.specialist_type
                == "induction"@
            &&& result.duration_ms == duration_ms
            &&& !result.success
            &&& result.iterations == 0
            &&& result.tool_calls_count == 0
            &&& result.input_tokens == 0
            &&& result.output_tokens == 0
            &&& result.content.len() == 0
            &&& result.metrics == run::no_metrics()
            &&& event.timestamp == timestamp
            &&& event.run_id == request.parent_run_id@
            &&& event.specialist_type == result.specialist_type
            &&& event.workspace_name == request.workspace_name@
            &&& event.observer == request.observer@
            &&& event.observed == request.observed@
            &&& event.iterations == 0
            &&& event.tool_calls_count == 0
            &&& event.input_tokens == 0
            &&& event.output_tokens == 0
            &&& event.duration_ms == duration_ms
            &&& !event.success
            &&& event.metrics == run::no_metrics()
            &&& event.error_class == Some(error@)
        }),
{
}

/// A plan sets the tools up as the request has it, and has the limits of the
/// specialist; a configured limit on output tokens counts when it is positive.
pub proof fn law_plan_follows_the_request(
    plan: ToolLoopPlan,
    request: RunRequest,
    catalog: ToolCatalog,
    facts: Seq<Seq<char>>,
)
    requires
        run::plan_fits(plan, request, catalog, facts),
    ensures
        plan.settings.workspace_name@ == request.workspace_name@,
        plan.settings.observer@ == request.observer@,
        plan.settings.observed@ == request.observed@,
        plan.settings.session_name == request.session_name,
        plan.settings.include_observation_ids,
        plan.settings.peer_card_create == request.peer_card_create,
        plan.settings.run_id@ == request.parent_run_id@,
        request.kind == SpecialistKind::Deduction ==> plan.settings.agent_type@ == "deduction"@,
        request.kind == SpecialistKind::Induction ==> plan.settings.agent_type@ == "induction"@,
        plan.settings.parent_category@ == "dream"@,
        plan.settings.honcho_version == request.honcho_version,
        plan.settings.deduplicate == request.deduplicate,
        match request.max_output_tokens {
            Some(limit) => plan.max_output_tokens == if limit > 0 {
                limit
            } else {
                8192
            },
            None => plan.max_output_tokens == 8192,
        },
        plan.prompt@.len() == 0,
        request.kind == SpecialistKind::Deduction ==> plan.max_iterations == 12,
        request.kind == SpecialistKind::Induction ==> plan.max_iterations == 10,
{
}

/// A plan offers induction its catalog, and deduction its own: whole where the
/// request allows a peer card, and without the tool that writes it where not.
pub proof fn law_plan_offers_the_tools(
    plan: ToolLoopPlan,
    request: RunRequest,
    catalog: ToolCatalog,
    facts: Seq<Seq<char>>,
)
    requires
        run::plan_fits(plan, request, catalog, facts),
    ensures
        request.kind == SpecialistKind::Induction ==> plan.tools@ == catalog.induction@,
        request.kind == SpecialistKind::Deduction && request.peer_card_create ==> plan.tools@
            == catalog.deduction@,
        request.kind == SpecialistKind::Deduction && !request.peer_card_create ==> plan.tools@
            == SpecialistKind::Deduction.offered_tools(
            catalog.deduction@,
            catalog.induction@,
            false,
        ),
{
}

/// The hints of a request are passed on whole and in order, where there are any.
pub proof fn law_hints_are_passed_on(request: RunRequest)
    ensures
        request.hints is None ==> run::hints_of(request) is None,
        request.hints is Some ==> {
            &&& run::hints_of(request) is Some
            &&& run::hints_of(request)->0.len() == request.hints->0@.len()
            &&& forall|i: int|
                0 <= i < request.hints->0@.len() ==> #[trigger] run::hints_of(request)->0[i]
                    == request.hints->0@[i]@
        },
{
}

/// A plan opens with two messages: the system prompt, with the rules of the peer
/// card just for a deduction run that is allowed one, and the user prompt with the
/// hints of the request and the facts of the card. Neither holds anything else.
pub proof fn law_plan_opens_with_two_messages(
    plan: ToolLoopPlan,
    request: RunRequest,
    catalog: ToolCatalog,
    facts: Seq<Seq<char>>,
)
    requires
        run::plan_fits(plan, request, catalog, facts),
    ensures
        plan.messages@.len() == 2,
        json::json_contents(plan.messages@[0]) == Json::Object(
            map![
                "role"@ => Json::Text("system"@),
                "content"@ => Json::Text(
                    request.kind.system_text(
                        request.observed@,
                        request.kind == SpecialistKind::Deduction && request.peer_card_create,
                    ),
                ),
            ],
        ),
        json::json_contents(plan.messages@[1]) == Json::Object(
            map![
                "role"@ => Json::Text("user"@),
                "content"@ => Json::Text(
                    request.kind.user_text(
                        request.observed@,
                        run::hints_of(request),
                        Some(facts),
                    ),
                ),
            ],
        ),
{
    let held = json::json_items(plan.messages@);
    assert(held.len() == 2);
    assert(held[0] == json::json_contents(plan.messages@[0]));
    assert(held[1] == json::json_contents(plan.messages@[1]));
}

/// To ask for a peer is to ask for it under its name, in the workspace of the
/// request.
pub proof fn law_peer_is_asked_for_by_name<T, D, E>(
    action: RunAction<T, D, E>,
    request: RunRequest,
    name: Seq<char>,
)
    ensures
        run::asks_for_peer(action, request, name) <==> {
            &&& action matches RunAction::CreatePeer { workspace_name, peer }
            &&& workspace_name@ == request.workspace_name@
            &&& peer@ == name
        },
{
}

/// Which replies a run takes: what it had asked for, and a failure of the store
/// where it had asked the store.
pub proof fn law_replies_that_are_taken<T, D, E>(
    reply: RunReply<T, D, E>,
    request: RunRequest,
    catalog: ToolCatalog,
)
    ensures
        run::answers(reply, RunState::CreatingObserver { request, catalog }) <==> reply is PeerReady
            || reply is StoreFailed,
        run::answers(reply, RunState::CreatingObserved { request, catalog }) <==> reply is PeerReady
            || reply is StoreFailed,
        run::answers(reply, RunState::FetchingPeerCard { request, catalog }) <==> reply is PeerCard
            || reply is StoreFailed,
        run::answers(reply, RunState::RunningToolLoop { request }) <==> reply is LoopEnded,
        !run::answers(reply, RunState::Finished),
{
}

/// A failure of the store ends a run wherever it stands, and its error is handed on.
pub proof fn law_error_of_the_store_is_handed_on<T, D, E>(
    state: RunState,
    error: E,
    step: (RunState, RunAction<T, D, E>),
)
    requires
        run::is_step(state, (RunReply::StoreFailed { error }), step),
    ensures
        step.0 is Finished,
        step.1 == (RunAction::<T, D, E>::Fail { error }),
{
}

/// Once the observer is there, a run asks for the observed peer just where it is
/// another one, whatever the kind of the run and whether it may write a card.
pub proof fn law_observed_peer_is_asked_for<T, D, E>(
    request: RunRequest,
    catalog: ToolCatalog,
    step: (RunState, RunAction<T, D, E>),
)
    requires
        run::is_step(
            (RunState::CreatingObserver { request, catalog }),
            RunReply::PeerReady,
            step,
        ),
    ensures
        request.observer@ != request.observed@ ==> {
            &&& step.0 == (RunState::CreatingObserved { request, catalog })
            &&& step.1 matches RunAction::CreatePeer { workspace_name, peer }
            &&& workspace_name@ == request.workspace_name@
            &&& peer@ == request.observed@
        },
        request.observer@ == request.observed@ ==> !(step.1 is CreatePeer),
{
}

/// Once its peers are there, a deduction run that is allowed a peer card asks for
/// the one that the observer keeps on the observed peer, and any other run goes on
/// to the tool loop, without facts.
pub proof fn law_what_follows_the_peers<T, D, E>(
    request: RunRequest,
    catalog: ToolCatalog,
    state: RunState,
    step: (RunState, RunAction<T, D, E>),
)
    requires
        ({
            ||| state == (RunState::CreatingObserved { request, catalog })
            ||| state == (RunState::CreatingObserver { request, catalog }) && request.observer@
                == request.observed@
        }),
        run::is_step(state, RunReply::PeerReady, step),
    ensures
        request.kind == SpecialistKind::Deduction && request.peer_card_create ==> {
            &&& step.0 == (RunState::FetchingPeerCard { request, catalog })
            &&& step.1 matches RunAction::FetchPeerCard { workspace_name, observer, observed }
            &&& workspace_name@ == request.workspace_name@
            &&& observer@ == request.observer@
            &&& observed@ == request.observed@
        },
        request.kind == SpecialistKind::Induction || !request.peer_card_create ==> {
            &&& step.0 == (RunState::RunningToolLoop { request })
            &&& step.1 matches RunAction::RunToolLoop { plan }
            &&& run::plan_fits(plan, request, catalog, Seq::empty())
        },
{
}

/// A run that was answered with a peer card goes on to the tool loop, with the
/// facts of that card.
pub proof fn law_facts_of_the_card_go_into_the_plan<T, D, E>(
    request: RunRequest,
    catalog: ToolCatalog,
    card: Option<serde_json::Value>,
    step: (RunState, RunAction<T, D, E>),
)
    requires
        run::is_step(
            (RunState::FetchingPeerCard { request, catalog }),
            (RunReply::PeerCard { card }),
            step,
        ),
    ensures
        step.0 == (RunState::RunningToolLoop { request }),
        step.1 matches RunAction::RunToolLoop { plan } && run::plan_fits(
            plan,
            request,
            catalog,
            specialists::card_facts(specialists::card_contents(card)),
        ),
{
}

/// A run whose tool loop has ended reports what came of it, and is over.
pub proof fn law_end_of_the_loop_is_reported<T, D, E>(
    request: RunRequest,
    outcome: LoopOutcome,
    duration_ms: D,
    timestamp: T,
    step: (RunState, RunAction<T, D, E>),
)
    requires
        run::is_step(
            (RunState::RunningToolLoop { request }),
            (RunReply::LoopEnded { outcome, duration_ms, timestamp }),
            step,
        ),
    ensures
        step.0 is Finished,
        step.1 matches RunAction::Report { event, result } && result@ == run::expected_result(
            request,
            outcome,
            duration_ms,
        ) && event@ == run::expected_event(request, outcome, duration_ms, timestamp),
{
}

/// The calls of a finished run on a store that held, one by one: the observer; the
/// observed peer just where it is another one, whatever the kind of the run and
/// whether it may write a card; the peer card just for a deduction run that is
/// allowed one; the tool loop; and the report.
pub proof fn law_calls_of_a_finished_run<T, D, E>(
    request: RunRequest,
    catalog: ToolCatalog,
    states: Seq<RunState>,
    actions: Seq<RunAction<T, D, E>>,
    replies: Seq<RunReply<T, D, E>>,
)
    requires
        laws::is_run(request, catalog, states, actions, replies),
        forall|i: int| 0 <= i < replies.len() ==> !(#[trigger] replies[i] is StoreFailed),
        states.last() is Finished,
    ensures
        ({
            let calls = laws::calls_of(actions);
            let first = PlannedCall::CreatePeer {
                workspace_name: request.workspace_name@,
                peer: request.observer@,
            };
            let second = PlannedCall::CreatePeer {
                workspace_name: request.workspace_name@,
                peer: request.observed@,
            };
            let card = PlannedCall::FetchPeerCard {
                workspace_name: request.workspace_name@,
                observer: request.observer@,
                observed: request.observed@,
            };
            let another = request.observer@ != request.observed@;
            let carded = request.kind == SpecialistKind::Deduction && request.peer_card_create;
            &&& another && carded ==> calls == seq![
                first,
                second,
                card,
                PlannedCall::RunToolLoop,
                PlannedCall::Report,
            ]
            &&& another && !carded ==> calls == seq![
                first,
                second,
                PlannedCall::RunToolLoop,
                PlannedCall::Report,
            ]
            &&& !another && carded ==> calls == seq![
                first,
                card,
                PlannedCall::RunToolLoop,
                PlannedCall::Report,
            ]
            &&& !another && !carded ==> calls == seq![
                first,
                PlannedCall::RunToolLoop,
                PlannedCall::Report,
            ]
        }),
{
    laws::law_run_makes_the_planned_calls(request, catalog, states, actions, replies);
}

/// A call stands for the action that makes it, with all that it names.
pub proof fn law_calls_stand_for_their_actions<T, D, E>(
    actions: Seq<RunAction<T, D, E>>,
    i: int,
)
    requires
        0 <= i < actions.len(),
    ensures
        laws::calls_of(actions).len() == actions.len(),
        match actions[i] {
            RunAction::CreatePeer { workspace_name, peer } => laws::calls_of(actions)[i] == (
            PlannedCall::CreatePeer { workspace_name: workspace_name@, peer: peer@ }),
            RunAction::FetchPeerCard { workspace_name, observer, observed } => laws::calls_of(
                actions,
            )[i] == (PlannedCall::FetchPeerCard {
                workspace_name: workspace_name@,
                observer: observer@,
                observed: observed@,
            }),
            RunAction::RunToolLoop { plan } => laws::calls_of(actions)[i]
                == PlannedCall::RunToolLoop,
            RunAction::Report { event, result } => laws::calls_of(actions)[i]
                == PlannedCall::Report,
            RunAction::Fail { error } => laws::calls_of(actions)[i] == PlannedCall::Fail,
        },
{
}

/// A run on a store that held makes sure of the observed peer right after the
/// observer, where it is another one, and of no peer twice, whatever the kind of
/// the run and whether it may write a card.
pub proof fn law_each_peer_is_made_sure_of_once<T, D, E>(
    request: RunRequest,
    catalog: ToolCatalog,
    states: Seq<RunState>,
    actions: Seq<RunAction<T, D, E>>,
    replies: Seq<RunReply<T, D, E>>,
)
    requires
        laws::is_run(request, catalog, states, actions, replies),
        forall|i: int| 0 <= i < replies.len() ==> !(#[trigger] replies[i] is StoreFailed),
        states.last() is Finished,
    ensures
        actions[0] matches RunAction::CreatePeer { workspace_name, peer } && workspace_name@
            == request.workspace_name@ && peer@ == request.observer@,
        request.observer@ != request.observed@ ==> {
            &&& laws::calls_of(actions).len() > 1
            &&& laws::calls_of(actions)[1] == (PlannedCall::CreatePeer {
                workspace_name: request.workspace_name@,
                peer: request.observed@,
            })
            &&& actions[1] matches RunAction::CreatePeer { workspace_name, peer }
            &&& workspace_name@ == request.workspace_name@
            &&& peer@ == request.observed@
        },
        forall|i: int|
            (if request.observer@ == request.observed@ {
                1
            } else {
                2int
            }) <= i < actions.len() ==> !(#[trigger] actions[i] is CreatePeer)
                && !(laws::calls_of(actions)[i] is CreatePeer),
{
    law_calls_of_a_finished_run(request, catalog, states, actions, replies);
    let calls = laws::calls_of(actions);
    assert(calls.len() == actions.len());
    assert(calls[0] == run::planned_part(actions[0]));
    if request.observer@ != request.observed@ {
        assert(calls[1] == run::planned_part(actions[1]));
    }
    assert forall|i: int|
        (if request.observer@ == request.observed@ {
            1
        } else {
            2int
        }) <= i < actions.len() implies !(#[trigger] actions[i] is CreatePeer)
        && !(calls[i] is CreatePeer) by {
        assert(calls[i] == run::planned_part(actions[i]));
    }
}

/// The start of a run is a run, and each step that is taken on a reply to what it
/// had asked for leads to a run.
pub proof fn law_steps_make_runs<T, D, E>(
    request: RunRequest,
    catalog: ToolCatalog,
    states: Seq<RunState>,
    actions: Seq<RunAction<T, D, E>>,
    replies: Seq<RunReply<T, D, E>>,
    first: RunAction<T, D, E>,
    reply: RunReply<T, D, E>,
    step: (RunState, RunAction<T, D, E>),
)
    ensures
        run::asks_for_peer(first, request, request.observer@) ==> laws::is_run(
            request,
            catalog,
            seq![(RunState::CreatingObserver { request, catalog })],
            seq![first],
            Seq::empty(),
        ),
        laws::is_run(request, catalog, states, actions, replies) && run::answers(
            reply,
            states.last(),
        ) && run::is_step(states.last(), reply, step) ==> laws::is_run(
            request,
            catalog,
            states.push(step.0),
            actions.push(step.1),
            replies.push(reply),
        ),
{
    let more_states = states.push(step.0);
    let more_actions = actions.push(step.1);
    let more_replies = replies.push(reply);
    if laws::is_run(request, catalog, states, actions, replies) && run::answers(
        reply,
        states.last(),
    ) && run::is_step(states.last(), reply, step) {
        assert forall|i: int| 0 <= i < more_replies.len() implies #[trigger] laws::is_turn(
            more_states,
            more_actions,
            more_replies,
            i,
        ) by {
            if i < replies.len() {
                assert(laws::is_turn(states, actions, replies, i));
            }
        }
    }
}

} // verus!
