//! What holds of the specialists and of their runs as a whole.

use serde_json::Value;
use vstd::prelude::*;

use crate::dreamer::run::{
    self, LoopOutcome, PlannedCall, RunAction, RunReply, RunRequest, RunState,
};
use crate::dreamer::specialists::{self, SpecialistKind, ToolCatalog, PEER_CARD_TOOL};
use crate::json::{self, Json};

verus! {

/// A system prompt is the same for every observed peer.
pub proof fn law_system_prompt_is_the_same_for_every_peer(
    kind: SpecialistKind,
    one: Seq<char>,
    other: Seq<char>,
    peer_card_enabled: bool,
)
    ensures
        kind.system_text(one, peer_card_enabled) == kind.system_text(other, peer_card_enabled),
{
}

/// A user prompt opens with the id of the observed peer, on a line of its own
/// under `Target observee:`.
pub proof fn law_user_prompt_opens_with_the_observee(
    kind: SpecialistKind,
    observed: Seq<char>,
    hints: Option<Seq<Seq<char>>>,
    peer_card: Option<Seq<Seq<char>>>,
)
    ensures
        ("Target observee:\n"@ + observed + "\n\n"@).is_prefix_of(
            kind.user_text(observed, hints, peer_card),
        ),
{
    let opening = "Target observee:\n"@ + observed + "\n\n"@;
    let block = specialists::target_observee_text(observed);
    reveal_strlit("\n\n");
    reveal_strlit(
        "\n\nThe target observee is the peer identified above. When created observations need to name this subject, use the exact observee id above, not the phrase \"the target observee\".\n\n",
    );
    let note = specialists::TARGET_OBSERVEE_NOTE@;
    assert(note.take(2) =~= "\n\n"@);
    assert(block.take(opening.len() as int) =~= opening);
    assert(opening =~= kind.user_text(observed, hints, peer_card).take(opening.len() as int));
}

/// Hints beyond the first few have no effect on a user prompt.
pub proof fn law_only_the_first_hints_count(
    kind: SpecialistKind,
    observed: Seq<char>,
    hints: Seq<Seq<char>>,
    peer_card: Option<Seq<Seq<char>>>,
)
    ensures
        kind.user_text(observed, Some(hints), peer_card) == kind.user_text(
            observed,
            Some(specialists::used_hints(hints)),
            peer_card,
        ),
{
}

/// An empty list of hints is no list of hints.
pub proof fn law_empty_hints_are_no_hints(
    kind: SpecialistKind,
    observed: Seq<char>,
    peer_card: Option<Seq<Seq<char>>>,
)
    ensures
        kind.user_text(observed, Some(Seq::empty()), peer_card) == kind.user_text(
            observed,
            None,
            peer_card,
        ),
{
}

/// A peer card without facts is no peer card.
pub proof fn law_empty_peer_card_is_no_peer_card(
    kind: SpecialistKind,
    observed: Seq<char>,
    hints: Option<Seq<Seq<char>>>,
)
    ensures
        kind.user_text(observed, hints, Some(Seq::empty())) == kind.user_text(
            observed,
            hints,
            None,
        ),
{
}

/// Induction is never shown the peer card, nor told its rules.
pub proof fn law_induction_ignores_the_peer_card(
    observed: Seq<char>,
    hints: Option<Seq<Seq<char>>>,
    one: Option<Seq<Seq<char>>>,
    other: Option<Seq<Seq<char>>>,
    tools: ToolCatalog,
)
    ensures
        SpecialistKind::Induction.user_text(observed, hints, one)
            == SpecialistKind::Induction.user_text(observed, hints, other),
        SpecialistKind::Induction.system_text(observed, true)
            == SpecialistKind::Induction.system_text(observed, false),
        SpecialistKind::Induction.offered_tools(tools.deduction@, tools.induction@, true)
            == SpecialistKind::Induction.offered_tools(tools.deduction@, tools.induction@, false),
{
}

/// With the peer card disabled, deduction is offered every tool but the one that
/// writes it.
pub proof fn law_disabled_peer_card_takes_its_tool_away(
    deduction: Seq<Value>,
    induction: Seq<Value>,
    tool: Value,
)
    ensures
        SpecialistKind::Deduction.offered_tools(deduction, induction, false).contains(tool) <==> (
        deduction.contains(tool) && !specialists::is_tool(
            json::json_contents(tool),
            PEER_CARD_TOOL@,
        )),
{
    let keeps = |t: Value|
        !specialists::is_tool(json::json_contents(t), PEER_CARD_TOOL@);
    let kept = deduction.filter(keeps);
    if kept.contains(tool) {
        let i = choose|i: int| 0 <= i < kept.len() && kept[i] == tool;
        deduction.lemma_filter_pred(keeps, i);
        deduction.lemma_filter_contains_rev(keeps, tool);
    }
    if deduction.contains(tool) && keeps(tool) {
        let i = choose|i: int| 0 <= i < deduction.len() && deduction[i] == tool;
        deduction.lemma_filter_contains(keeps, i);
    }
}

/// The card that holds `facts`, as it is stored.
pub open spec fn stored_card(facts: Seq<Seq<char>>) -> Json {
    Json::Object(
        Map::empty().insert(
            "peer_card"@,
            Json::Array(facts.map_values(|fact: Seq<char>| Json::Text(fact))),
        ),
    )
}

/// The facts of a stored card are read back as they are.
pub proof fn law_stored_facts_are_read_back(facts: Seq<Seq<char>>)
    ensures
        specialists::card_facts(Some(stored_card(facts))) == facts,
    decreases facts.len(),
{
    let items = facts.map_values(|fact: Seq<char>| Json::Text(fact));
    if facts.len() > 0 {
        law_stored_facts_are_read_back(facts.drop_last());
        assert(items.drop_last() =~= facts.drop_last().map_values(
            |fact: Seq<char>| Json::Text(fact),
        ));
        assert(facts =~= facts.drop_last().push(facts.last()));
    }
}

/// A message of a run holds its role and its content.
pub proof fn law_message_holds_role_and_content(role: Seq<char>, content: Seq<char>)
    ensures
        run::chat_message(role, content) matches Json::Object(members)
            && members.contains_pair("role"@, Json::Text(role)) && members.contains_pair(
            "content"@,
            Json::Text(content),
        ) && members.dom() == set!["role"@, "content"@],
{
    reveal_strlit("role");
    reveal_strlit("content");
    assert("role"@.len() != "content"@.len());
    let members = run::chat_message(role, content)->Object_0;
    assert(members.dom() =~= set!["role"@, "content"@]);
}

/// A run, written down: the states that it went through, the action that came
/// with each, and the replies in between.
pub open spec fn is_run<T, D, E>(
    request: RunRequest,
    catalog: ToolCatalog,
    states: Seq<RunState>,
    actions: Seq<RunAction<T, D, E>>,
    replies: Seq<RunReply<T, D, E>>,
) -> bool {
    &&& states.len() == replies.len() + 1
    &&& actions.len() == replies.len() + 1
    &&& states[0] == (RunState::CreatingObserver { request, catalog })
    &&& run::asks_for_peer(actions[0], request, request.observer@)
    &&& forall|i: int| #[trigger]
        is_turn(states, actions, replies, i) <== 0 <= i < replies.len()
}

/// Whether the step after reply `i` is the one that the run takes on it.
pub open spec fn is_turn<T, D, E>(
    states: Seq<RunState>,
    actions: Seq<RunAction<T, D, E>>,
    replies: Seq<RunReply<T, D, E>>,
    i: int,
) -> bool {
    &&& run::answers(replies[i], states[i])
    &&& run::is_step(states[i], replies[i], (states[i + 1], actions[i + 1]))
}

/// What the request alone fixes of the calls that `actions` make, in order.
pub open spec fn calls_of<T, D, E>(actions: Seq<RunAction<T, D, E>>) -> Seq<PlannedCall> {
    actions.map_values(|action: RunAction<T, D, E>| run::planned_part(action))
}

/// Whether the store failed at no point.
pub open spec fn store_held<T, D, E>(replies: Seq<RunReply<T, D, E>>) -> bool {
    forall|i: int| 0 <= i < replies.len() ==> !(#[trigger] replies[i] is StoreFailed)
}

/// Whether a state belongs to a run of `request`.
pub open spec fn is_about(state: RunState, request: RunRequest) -> bool {
    match state {
        RunState::CreatingObserver { request: own, catalog } => own == request,
        RunState::CreatingObserved { request: own, catalog } => own == request
            && request.observer@ != request.observed@,
        RunState::FetchingPeerCard { request: own, catalog } => own == request
            && run::uses_peer_card(request),
        RunState::RunningToolLoop { request: own } => own == request,
        RunState::Finished => true,
    }
}

/// A run without its last turn is a run.
proof fn lemma_run_but_its_last_turn<T, D, E>(
    request: RunRequest,
    catalog: ToolCatalog,
    states: Seq<RunState>,
    actions: Seq<RunAction<T, D, E>>,
    replies: Seq<RunReply<T, D, E>>,
)
    requires
        is_run(request, catalog, states, actions, replies),
        replies.len() > 0,
    ensures
        is_run(request, catalog, states.drop_last(), actions.drop_last(), replies.drop_last()),
{
    let fewer_states = states.drop_last();
    let fewer_actions = actions.drop_last();
    let fewer_replies = replies.drop_last();
    assert forall|i: int| 0 <= i < fewer_replies.len() implies #[trigger] is_turn(
        fewer_states,
        fewer_actions,
        fewer_replies,
        i,
    ) by {
        assert(is_turn(states, actions, replies, i));
        assert(fewer_states[i + 1] == states[i + 1]);
        assert(fewer_actions[i + 1] == actions[i + 1]);
    }
}

/// The calls that were made and those that are left are the planned ones.
proof fn lemma_calls_made_and_left<T, D, E>(
    request: RunRequest,
    catalog: ToolCatalog,
    states: Seq<RunState>,
    actions: Seq<RunAction<T, D, E>>,
    replies: Seq<RunReply<T, D, E>>,
)
    requires
        is_run(request, catalog, states, actions, replies),
        store_held(replies),
    ensures
        calls_of(actions) + run::remaining_calls(states.last())
            == run::planned_calls(request),
        is_about(states.last(), request),
    decreases replies.len(),
{
    let planned = run::planned_calls(request);
    let n = replies.len() as int;
    if n == 0 {
        assert(calls_of(actions) =~= planned.take(1));
        assert(planned.take(1) + planned.skip(1) =~= planned);
    } else {
        let before = (states.drop_last(), actions.drop_last(), replies.drop_last());
        lemma_run_but_its_last_turn(request, catalog, states, actions, replies);
        assert forall|i: int| 0 <= i < n - 1 implies !(#[trigger] before.2[i] is StoreFailed) by {
            assert(!(replies[i] is StoreFailed));
        }
        lemma_calls_made_and_left(request, catalog, before.0, before.1, before.2);
        assert(is_turn(states, actions, replies, n - 1));
        assert(!(replies[n - 1] is StoreFailed));
        let call = run::planned_part(actions.last());
        let left = run::remaining_calls(before.0.last());
        assert(calls_of(actions) =~= calls_of(before.1).push(call));
        assert(left =~= seq![call] + run::remaining_calls(states.last()));
        assert(calls_of(before.1).push(call) + run::remaining_calls(states.last())
            =~= calls_of(before.1) + left);
    }
}

/// A run that came to its end on a store that held has made the planned calls, in
/// their order: the observer, the observed peer if it is another, the peer card
/// if the run uses it, the tool loop, and one report, whatever came of the loop.
pub proof fn law_run_makes_the_planned_calls<T, D, E>(
    request: RunRequest,
    catalog: ToolCatalog,
    states: Seq<RunState>,
    actions: Seq<RunAction<T, D, E>>,
    replies: Seq<RunReply<T, D, E>>,
)
    requires
        is_run(request, catalog, states, actions, replies),
        store_held(replies),
        states.last() is Finished,
    ensures
        calls_of(actions) == run::planned_calls(request),
{
    lemma_calls_made_and_left(request, catalog, states, actions, replies);
    assert(calls_of(actions) + Seq::empty() =~= calls_of(actions));
}

/// The facts that a reply brings: those of the peer card, if it brings one.
pub open spec fn facts_in_reply<T, D, E>(reply: RunReply<T, D, E>) -> Seq<Seq<char>> {
    match reply {
        RunReply::PeerCard { card } => specialists::card_facts(specialists::card_contents(card)),
        _ => Seq::empty(),
    }
}

/// A state that still holds the catalog holds the one that the run was given.
proof fn lemma_catalog_is_kept<T, D, E>(
    request: RunRequest,
    catalog: ToolCatalog,
    states: Seq<RunState>,
    actions: Seq<RunAction<T, D, E>>,
    replies: Seq<RunReply<T, D, E>>,
)
    requires
        is_run(request, catalog, states, actions, replies),
    ensures
        match states.last() {
            RunState::CreatingObserver { request: own, catalog: held } => own == request && held
                == catalog,
            RunState::CreatingObserved { request: own, catalog: held } => own == request && held
                == catalog,
            RunState::FetchingPeerCard { request: own, catalog: held } => own == request && held
                == catalog,
            RunState::RunningToolLoop { request: own } => {
                &&& own == request
                &&& replies.len() > 0
                &&& actions.last() matches RunAction::RunToolLoop { plan } && run::plan_fits(
                    plan,
                    request,
                    catalog,
                    facts_in_reply(replies.last()),
                )
            },
            RunState::Finished => true,
        },
    decreases replies.len(),
{
    if replies.len() > 0 {
        lemma_run_but_its_last_turn(request, catalog, states, actions, replies);
        lemma_catalog_is_kept(
            request,
            catalog,
            states.drop_last(),
            actions.drop_last(),
            replies.drop_last(),
        );
        assert(is_turn(states, actions, replies, replies.len() - 1));
    }
}

/// A run that came to its end on a store that held ran the tool loop by the plan
/// for its request, with the facts of the peer card that it had fetched, and
/// reported what came of that loop.
pub proof fn law_finished_run_reports_its_loop<T, D, E>(
    request: RunRequest,
    catalog: ToolCatalog,
    states: Seq<RunState>,
    actions: Seq<RunAction<T, D, E>>,
    replies: Seq<RunReply<T, D, E>>,
)
    requires
        is_run(request, catalog, states, actions, replies),
        store_held(replies),
        states.last() is Finished,
    ensures
        replies.len() >= 2,
        actions[replies.len() - 1] matches RunAction::RunToolLoop { plan } && run::plan_fits(
            plan,
            request,
            catalog,
            facts_in_reply(replies[replies.len() - 2]),
        ),
        match (replies.last(), actions.last()) {
            (
                RunReply::LoopEnded { outcome, duration_ms, timestamp },
                RunAction::Report { event, result },
            ) => {
                &&& result@ == run::expected_result(request, outcome, duration_ms)
                &&& event@ == run::expected_event(request, outcome, duration_ms, timestamp)
            },
            _ => false,
        },
{
    let n = replies.len() as int;
    assert(n > 0);
    assert(is_turn(states, actions, replies, n - 1));
    assert(!(replies[n - 1] is StoreFailed));
    lemma_run_but_its_last_turn(request, catalog, states, actions, replies);
    lemma_catalog_is_kept(
        request,
        catalog,
        states.drop_last(),
        actions.drop_last(),
        replies.drop_last(),
    );
}

/// A run on a store that held has made no call but planned ones, so far.
pub proof fn law_unfinished_run_made_the_first_planned_calls<T, D, E>(
    request: RunRequest,
    catalog: ToolCatalog,
    states: Seq<RunState>,
    actions: Seq<RunAction<T, D, E>>,
    replies: Seq<RunReply<T, D, E>>,
)
    requires
        is_run(request, catalog, states, actions, replies),
        store_held(replies),
    ensures
        calls_of(actions).is_prefix_of(run::planned_calls(request)),
{
    lemma_calls_made_and_left(request, catalog, states, actions, replies);
    assert(calls_of(actions) =~= run::planned_calls(request).take(
        actions.len() as int,
    ));
}

/// A failure of the store ends the run at once: the last action hands the error
/// on, the tool loop was not run, and nothing was reported.
pub proof fn law_store_failure_ends_the_run<T, D, E>(
    request: RunRequest,
    catalog: ToolCatalog,
    states: Seq<RunState>,
    actions: Seq<RunAction<T, D, E>>,
    replies: Seq<RunReply<T, D, E>>,
    at: int,
)
    requires
        is_run(request, catalog, states, actions, replies),
        0 <= at < replies.len(),
        replies[at] is StoreFailed,
    ensures
        at == replies.len() - 1,
        states.last() is Finished,
        actions.last() matches RunAction::Fail { error } && replies[at]
            == (RunReply::<T, D, E>::StoreFailed { error }),
        forall|i: int| 0 <= i < actions.len() ==> !(#[trigger] actions[i] is Report),
        forall|i: int| 0 <= i < actions.len() ==> !(#[trigger] actions[i] is RunToolLoop),
{
    assert(is_turn(states, actions, replies, at));
    if at + 1 < replies.len() {
        assert(is_turn(states, actions, replies, at + 1));
    }
    assert forall|i: int| 0 <= i < actions.len() implies !(#[trigger] actions[i] is Report) && !(
    actions[i] is RunToolLoop) by {
        if 0 < i <= at {
            assert(is_turn(states, actions, replies, i - 1));
            assert(is_turn(states, actions, replies, i));
            if i < at {
                assert(is_turn(states, actions, replies, i + 1));
            }
        }
    }
}

/// A run is over after five actions at the latest.
pub proof fn law_run_comes_to_an_end<T, D, E>(
    request: RunRequest,
    catalog: ToolCatalog,
    states: Seq<RunState>,
    actions: Seq<RunAction<T, D, E>>,
    replies: Seq<RunReply<T, D, E>>,
)
    requires
        is_run(request, catalog, states, actions, replies),
    ensures
        actions.len() <= 5,
{
    let planned = run::planned_calls(request);
    assert(planned.len() <= 5);
    if exists|i: int| 0 <= i < replies.len() && #[trigger] replies[i] is StoreFailed {
        let at = choose|i: int| 0 <= i < replies.len() && #[trigger] replies[i] is StoreFailed;
        law_store_failure_ends_the_run(
            request,
            catalog,
            states,
            actions,
            replies,
            at,
        );
        let before = (states.drop_last(), actions.drop_last(), replies.drop_last());
        lemma_run_but_its_last_turn(request, catalog, states, actions, replies);
        assert forall|i: int| 0 <= i < before.2.len() implies !(#[trigger] before.2[i] is StoreFailed) by {
            if replies[i] is StoreFailed {
                law_store_failure_ends_the_run(
                    request,
                    catalog,
                    states,
                    actions,
                    replies,
                    i,
                );
            }
        }
        lemma_calls_made_and_left(request, catalog, before.0, before.1, before.2);
        assert(is_turn(states, actions, replies, at));
        let left = run::remaining_calls(before.0.last());
        assert(left.len() > 0);
        assert(planned.len() == calls_of(before.1).len() + left.len());
    } else {
        lemma_calls_made_and_left(request, catalog, states, actions, replies);
        let left = run::remaining_calls(states.last());
        assert(planned.len() == calls_of(actions).len() + left.len());
    }
}

/// A run fetches the peer card just where it uses it; an induction run never does.
pub proof fn law_peer_card_is_fetched_only_where_it_is_used(request: RunRequest)
    ensures
        run::planned_calls(request).contains(run::card_call(request)) <==> run::uses_peer_card(
            request,
        ),
        !run::uses_peer_card(request) ==> forall|i: int|
            0 <= i < run::planned_calls(request).len() ==> !(#[trigger] run::planned_calls(
                request,
            )[i] is FetchPeerCard),
        request.kind == SpecialistKind::Induction ==> !run::uses_peer_card(request),
{
    let planned = run::planned_calls(request);
    if run::uses_peer_card(request) {
        if request.observer@ == request.observed@ {
            assert(planned[1] == run::card_call(request));
        } else {
            assert(planned[2] == run::card_call(request));
        }
    }
}

/// The event of a run carries the figures of its result.
pub proof fn law_event_agrees_with_result<T, D>(
    request: RunRequest,
    outcome: LoopOutcome,
    duration_ms: D,
    timestamp: T,
)
    ensures
        ({
            let result = run::expected_result(request, outcome, duration_ms);
            let event = run::expected_event(
                request,
                outcome,
                duration_ms,
                timestamp,
            );
            &&& event.run_id == result.run_id
            &&& event.specialist_type == result.specialist_type
            &&& event.iterations == result.iterations
            &&& event.tool_calls_count == result.tool_calls_count
            &&& event.input_tokens == result.input_tokens
            &&& event.output_tokens == result.output_tokens
            &&& event.duration_ms == result.duration_ms
            &&& event.success == result.success
            &&& event.metrics == result.metrics
            &&& event.success <==> event.error_class is None
        }),
{
}

/// A run whose tool loop failed counts nothing, whatever its tools had done.
pub proof fn law_failed_run_counts_nothing<D>(request: RunRequest, error: String, duration_ms: D)
    ensures
        ({
            let result = run::expected_result(
                request,
                LoopOutcome::Failed { error },
                duration_ms,
            );
            &&& !result.success
            &&& result.iterations == 0
            &&& result.tool_calls_count == 0
            &&& result.input_tokens == 0
            &&& result.output_tokens == 0
            &&& result.content.len() == 0
            &&& result.metrics == run::no_metrics()
        }),
{
}

} // verus!
