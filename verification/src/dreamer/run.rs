//! One run of a dream specialist, as the decisions between the calls that it
//! makes: the peers are made sure of, the peer card is fetched, the model works
//! through its tools, and what came of it is reported.
//!
//! A run is a state and an action to perform; what came of the action leads to
//! the next state. `T` stands for a point in time, `D` for a duration, and `E`
//! for an error of the store.

use serde_json::Value;
use vstd::prelude::*;

use crate::dreamer::specialists::{self, peer_card_facts, SpecialistKind, ToolCatalog};
use crate::json::{self, text_object, Json};
use crate::text;

verus! {

/// What a run is asked to do.
pub struct RunRequest {
    pub kind: SpecialistKind,
    pub workspace_name: String,
    pub observer: String,
    pub observed: String,
    pub session_name: Option<String>,
    pub hints: Option<Vec<String>>,
    pub peer_card_create: bool,
    /// The configured limit on output tokens; it counts when it is positive.
    pub max_output_tokens: Option<i64>,
    pub parent_run_id: String,
    pub honcho_version: Option<String>,
    pub deduplicate: bool,
}

/// What the tools of a run have done.
#[derive(Debug)]
pub struct DreamerToolMetrics {
    pub created_observation_count: i64,
    pub deleted_observation_count: i64,
    pub created_counts_by_level: Vec<(String, i64)>,
    pub deleted_counts_by_level: Vec<(String, i64)>,
    pub peer_card_updated: bool,
    pub search_tool_calls_count: i64,
}

/// What `DreamerToolMetrics` holds.
pub ghost struct MetricsView {
    pub created_observation_count: i64,
    pub deleted_observation_count: i64,
    pub created_counts_by_level: Seq<(String, i64)>,
    pub deleted_counts_by_level: Seq<(String, i64)>,
    pub peer_card_updated: bool,
    pub search_tool_calls_count: i64,
}

impl View for DreamerToolMetrics {
    type V = MetricsView;

    open spec fn view(&self) -> MetricsView {
        MetricsView {
            created_observation_count: self.created_observation_count,
            deleted_observation_count: self.deleted_observation_count,
            created_counts_by_level: self.created_counts_by_level@,
            deleted_counts_by_level: self.deleted_counts_by_level@,
            peer_card_updated: self.peer_card_updated,
            search_tool_calls_count: self.search_tool_calls_count,
        }
    }
}

/// The metrics of tools that have done nothing.
pub open spec fn no_metrics() -> MetricsView {
    MetricsView {
        created_observation_count: 0,
        deleted_observation_count: 0,
        created_counts_by_level: Seq::empty(),
        deleted_counts_by_level: Seq::empty(),
        peer_card_updated: false,
        search_tool_calls_count: 0,
    }
}

/// A copy of `counts`.
fn copy_counts(counts: &Vec<(String, i64)>) -> (copy: Vec<(String, i64)>)
    ensures
        copy@ == counts@,
{
    let mut copy: Vec<(String, i64)> = Vec::new();
    let mut i: usize = 0;
    while i < counts.len()
        invariant
            i <= counts@.len(),
            copy@ == counts@.take(i as int),
        decreases counts@.len() - i,
    {
        copy.push((counts[i].0.clone(), counts[i].1));
        i += 1;
        assert(counts@.take(i as int) =~= counts@.take(i - 1).push(counts@[i - 1]));
    }
    assert(counts@.take(counts@.len() as int) =~= counts@);
    copy
}

impl Clone for DreamerToolMetrics {
    fn clone(&self) -> (copy: Self)
        ensures
            copy@ == self@,
    {
        DreamerToolMetrics {
            created_observation_count: self.created_observation_count,
            deleted_observation_count: self.deleted_observation_count,
            created_counts_by_level: copy_counts(&self.created_counts_by_level),
            deleted_counts_by_level: copy_counts(&self.deleted_counts_by_level),
            peer_card_updated: self.peer_card_updated,
            search_tool_calls_count: self.search_tool_calls_count,
        }
    }
}

impl Default for DreamerToolMetrics {
    fn default() -> (metrics: Self)
        ensures
            metrics@ == no_metrics(),
    {
        DreamerToolMetrics {
            created_observation_count: 0,
            deleted_observation_count: 0,
            created_counts_by_level: Vec::new(),
            deleted_counts_by_level: Vec::new(),
            peer_card_updated: false,
            search_tool_calls_count: 0,
        }
    }
}

/// What a run returns.
#[derive(Debug, Clone)]
pub struct SpecialistResult<D> {
    pub run_id: String,
    pub specialist_type: String,
    pub iterations: i64,
    pub tool_calls_count: i64,
    pub input_tokens: i64,
    pub output_tokens: i64,
    pub duration_ms: D,
    pub success: bool,
    pub content: String,
    pub metrics: DreamerToolMetrics,
}

/// What a `SpecialistResult` holds.
pub ghost struct ResultView<D> {
    pub run_id: Seq<char>,
    pub specialist_type: Seq<char>,
    pub iterations: i64,
    pub tool_calls_count: i64,
    pub input_tokens: i64,
    pub output_tokens: i64,
    pub duration_ms: D,
    pub success: bool,
    pub content: Seq<char>,
    pub metrics: MetricsView,
}

impl<D> View for SpecialistResult<D> {
    type V = ResultView<D>;

    open spec fn view(&self) -> ResultView<D> {
        ResultView {
            run_id: self.run_id@,
            specialist_type: self.specialist_type@,
            iterations: self.iterations,
            tool_calls_count: self.tool_calls_count,
            input_tokens: self.input_tokens,
            output_tokens: self.output_tokens,
            duration_ms: self.duration_ms,
            success: self.success,
            content: self.content@,
            metrics: self.metrics@,
        }
    }
}

/// What a run reports.
#[derive(Debug)]
pub struct DreamSpecialistEvent<T, D> {
    pub timestamp: T,
    pub run_id: String,
    pub specialist_type: String,
    pub workspace_name: String,
    pub observer: String,
    pub observed: String,
    pub iterations: i64,
    pub tool_calls_count: i64,
    pub input_tokens: i64,
    pub output_tokens: i64,
    pub duration_ms: D,
    pub success: bool,
    pub created_observation_count: i64,
    pub deleted_observation_count: i64,
    pub created_counts_by_level: Vec<(String, i64)>,
    pub deleted_counts_by_level: Vec<(String, i64)>,
    pub peer_card_updated: bool,
    pub search_tool_calls_count: i64,
    pub error_class: Option<String>,
}

/// What a `DreamSpecialistEvent` holds; the counts of its tools stand together.
pub ghost struct EventView<T, D> {
    pub timestamp: T,
    pub run_id: Seq<char>,
    pub specialist_type: Seq<char>,
    pub workspace_name: Seq<char>,
    pub observer: Seq<char>,
    pub observed: Seq<char>,
    pub iterations: i64,
    pub tool_calls_count: i64,
    pub input_tokens: i64,
    pub output_tokens: i64,
    pub duration_ms: D,
    pub success: bool,
    pub metrics: MetricsView,
    pub error_class: Option<Seq<char>>,
}

impl<T, D> View for DreamSpecialistEvent<T, D> {
    type V = EventView<T, D>;

    open spec fn view(&self) -> EventView<T, D> {
        EventView {
            timestamp: self.timestamp,
            run_id: self.run_id@,
            specialist_type: self.specialist_type@,
            workspace_name: self.workspace_name@,
            observer: self.observer@,
            observed: self.observed@,
            iterations: self.iterations,
            tool_calls_count: self.tool_calls_count,
            input_tokens: self.input_tokens,
            output_tokens: self.output_tokens,
            duration_ms: self.duration_ms,
            success: self.success,
            metrics: MetricsView {
                created_observation_count: self.created_observation_count,
                deleted_observation_count: self.deleted_observation_count,
                created_counts_by_level: self.created_counts_by_level@,
                deleted_counts_by_level: self.deleted_counts_by_level@,
                peer_card_updated: self.peer_card_updated,
                search_tool_calls_count: self.search_tool_calls_count,
            },
            error_class: match self.error_class {
                None => None,
                Some(class) => Some(class@),
            },
        }
    }
}

/// What the model answered at the end of its tool loop.
pub struct LoopResponse {
    pub content: Value,
    pub iterations: usize,
    /// How many tool calls were made.
    pub tool_calls_made: usize,
    pub input_tokens: i64,
    pub output_tokens: i64,
}

/// What came of the tool loop: an answer and what the tools have done, or the
/// error that ended it.
pub enum LoopOutcome {
    Answered { response: LoopResponse, metrics: DreamerToolMetrics },
    Failed { error: String },
}

/// The text of an answer: empty when its content is not a string.
pub open spec fn answer_text(content: Json) -> Seq<char> {
    match content {
        Json::Text(text) => text,
        _ => Seq::empty(),
    }
}

/// What a run with this outcome returns: what the loop counted when it was
/// answered, and nothing but zeros when it failed.
pub open spec fn expected_result<D>(
    request: RunRequest,
    outcome: LoopOutcome,
    duration_ms: D,
) -> ResultView<D> {
    match outcome {
        LoopOutcome::Answered { response, metrics } => ResultView {
            run_id: request.parent_run_id@,
            specialist_type: request.kind.slug(),
            iterations: response.iterations as i64,
            tool_calls_count: response.tool_calls_made as i64,
            input_tokens: response.input_tokens,
            output_tokens: response.output_tokens,
            duration_ms,
            success: true,
            content: answer_text(json::json_contents(response.content)),
            metrics: metrics@,
        },
        LoopOutcome::Failed { error } => ResultView {
            run_id: request.parent_run_id@,
            specialist_type: request.kind.slug(),
            iterations: 0,
            tool_calls_count: 0,
            input_tokens: 0,
            output_tokens: 0,
            duration_ms,
            success: false,
            content: Seq::empty(),
            metrics: no_metrics(),
        },
    }
}

/// What a run with this outcome reports: the figures of its result, the peers
/// that it was about, and the error that ended it.
pub open spec fn expected_event<T, D>(
    request: RunRequest,
    outcome: LoopOutcome,
    duration_ms: D,
    timestamp: T,
) -> EventView<T, D> {
    let result = expected_result(request, outcome, duration_ms);
    EventView {
        timestamp,
        run_id: result.run_id,
        specialist_type: result.specialist_type,
        workspace_name: request.workspace_name@,
        observer: request.observer@,
        observed: request.observed@,
        iterations: result.iterations,
        tool_calls_count: result.tool_calls_count,
        input_tokens: result.input_tokens,
        output_tokens: result.output_tokens,
        duration_ms,
        success: result.success,
        metrics: result.metrics,
        error_class: match outcome {
            LoopOutcome::Answered { .. } => None,
            LoopOutcome::Failed { error } => Some(error@),
        },
    }
}

/// The text of an answer: empty when its content is not a string.
fn content_text(content: &Value) -> (text: String)
    ensures
        text@ == answer_text(json::json_contents(*content)),
{
    match content.as_str() {
        Some(text) => text.to_string(),
        None => String::new(),
    }
}

/// The result of a run and the event that reports it.
pub fn conclude<T, D: Copy>(
    request: &RunRequest,
    outcome: LoopOutcome,
    duration_ms: D,
    timestamp: T,
) -> (conclusion: (SpecialistResult<D>, DreamSpecialistEvent<T, D>))
    ensures
        conclusion.0@ == expected_result(*request, outcome, duration_ms),
        conclusion.1@ == expected_event(*request, outcome, duration_ms, timestamp),
{
    let (result, error_class) = match outcome {
        LoopOutcome::Answered { response, metrics } => (
            SpecialistResult {
                run_id: request.parent_run_id.clone(),
                specialist_type: request.kind.name().to_string(),
                iterations: response.iterations as i64,
                tool_calls_count: response.tool_calls_made as i64,
                input_tokens: response.input_tokens,
                output_tokens: response.output_tokens,
                duration_ms,
                success: true,
                content: content_text(&response.content),
                metrics,
            },
            None,
        ),
        LoopOutcome::Failed { error } => (
            SpecialistResult {
                run_id: request.parent_run_id.clone(),
                specialist_type: request.kind.name().to_string(),
                iterations: 0,
                tool_calls_count: 0,
                input_tokens: 0,
                output_tokens: 0,
                duration_ms,
                success: false,
                content: String::new(),
                metrics: DreamerToolMetrics::default(),
            },
            Some(error),
        ),
    };
    let metrics = result.metrics.clone();
    let event = DreamSpecialistEvent {
        timestamp,
        run_id: request.parent_run_id.clone(),
        specialist_type: request.kind.name().to_string(),
        workspace_name: request.workspace_name.clone(),
        observer: request.observer.clone(),
        observed: request.observed.clone(),
        iterations: result.iterations,
        tool_calls_count: result.tool_calls_count,
        input_tokens: result.input_tokens,
        output_tokens: result.output_tokens,
        duration_ms,
        success: result.success,
        created_observation_count: metrics.created_observation_count,
        deleted_observation_count: metrics.deleted_observation_count,
        created_counts_by_level: metrics.created_counts_by_level,
        deleted_counts_by_level: metrics.deleted_counts_by_level,
        peer_card_updated: metrics.peer_card_updated,
        search_tool_calls_count: metrics.search_tool_calls_count,
        error_class,
    };
    (result, event)
}

/// With what the tools of a run are set up.
pub struct ExecutorSettings {
    pub workspace_name: String,
    pub observer: String,
    pub observed: String,
    pub session_name: Option<String>,
    pub include_observation_ids: bool,
    pub peer_card_create: bool,
    pub run_id: String,
    pub agent_type: String,
    pub parent_category: String,
    pub honcho_version: Option<String>,
    pub deduplicate: bool,
}

/// With what the tool loop of a run is started.
pub struct ToolLoopPlan {
    pub settings: ExecutorSettings,
    pub max_output_tokens: i64,
    /// The prompt beside the messages: there is none.
    pub prompt: String,
    pub messages: Vec<Value>,
    pub tools: Vec<Value>,
    pub max_iterations: usize,
}

/// Whether a run works with the peer card: its specialist may write it, and the
/// request allows that.
pub open spec fn uses_peer_card(request: RunRequest) -> bool {
    request.kind.writes_peer_card() && request.peer_card_create
}

/// The limit on output tokens: the configured one when it is positive, else the
/// specialist's own.
pub open spec fn token_limit(request: RunRequest) -> int {
    if request.max_output_tokens is Some && request.max_output_tokens->0 > 0 {
        request.max_output_tokens->0 as int
    } else {
        request.kind.token_budget()
    }
}

/// The views of the hints of a request.
pub open spec fn hints_of(request: RunRequest) -> Option<Seq<Seq<char>>> {
    match request.hints {
        None => None,
        Some(hints) => Some(text::views(hints@)),
    }
}

/// A chat message.
pub open spec fn chat_message(role: Seq<char>, content: Seq<char>) -> Json {
    Json::Object(
        Map::empty().insert("role"@, Json::Text(role)).insert("content"@, Json::Text(content)),
    )
}

/// The messages that open the tool loop: the specialist's two prompts, the user
/// prompt with the facts of the peer card where there are any.
pub open spec fn opening_messages(request: RunRequest, facts: Seq<Seq<char>>) -> Seq<Json> {
    seq![
        chat_message(
            "system"@,
            request.kind.system_text(request.observed@, uses_peer_card(request)),
        ),
        chat_message(
            "user"@,
            request.kind.user_text(request.observed@, hints_of(request), Some(facts)),
        ),
    ]
}

/// Whether the tools are set up as `request` has it.
pub open spec fn settings_fit(settings: ExecutorSettings, request: RunRequest) -> bool {
    &&& settings.workspace_name@ == request.workspace_name@
    &&& settings.observer@ == request.observer@
    &&& settings.observed@ == request.observed@
    &&& settings.session_name == request.session_name
    &&& settings.include_observation_ids
    &&& settings.peer_card_create == request.peer_card_create
    &&& settings.run_id@ == request.parent_run_id@
    &&& settings.agent_type@ == request.kind.slug()
    &&& settings.parent_category@ == "dream"@
    &&& settings.honcho_version == request.honcho_version
    &&& settings.deduplicate == request.deduplicate
}

/// Whether `plan` is the plan for `request`, with these facts on the peer card and
/// with the tools of this catalog.
pub open spec fn plan_fits(
    plan: ToolLoopPlan,
    request: RunRequest,
    catalog: ToolCatalog,
    facts: Seq<Seq<char>>,
) -> bool {
    &&& settings_fit(plan.settings, request)
    &&& plan.max_output_tokens == token_limit(request)
    &&& plan.prompt@.len() == 0
    &&& json::json_items(plan.messages@) == opening_messages(request, facts)
    &&& plan.tools@ == request.kind.offered_tools(
        catalog.deduction@,
        catalog.induction@,
        uses_peer_card(request),
    )
    &&& plan.max_iterations == request.kind.iteration_limit()
}

/// Whether a run works with the peer card.
fn peer_card_enabled(request: &RunRequest) -> (enabled: bool)
    ensures
        enabled == uses_peer_card(*request),
{
    request.kind.can_update_peer_card() && request.peer_card_create
}

/// The limit on output tokens of a run.
fn effective_max_tokens(request: &RunRequest) -> (limit: i64)
    ensures
        limit == token_limit(*request),
{
    match request.max_output_tokens {
        Some(max) if max > 0 => max,
        _ => request.kind.max_tokens(),
    }
}

/// A chat message.
fn message(role: &str, content: String) -> (value: Value)
    ensures
        json::json_contents(value) == chat_message(role@, content@),
{
    let mut fields: Vec<(String, String)> = Vec::new();
    fields.push(("role".to_string(), role.to_string()));
    fields.push(("content".to_string(), content));
    proof {
        reveal_strlit("role");
        reveal_strlit("content");
        assert("role"@.len() != "content"@.len());
        reveal_with_fuel(json::text_members, 3);
        assert(fields@.drop_last().drop_last() =~= Seq::empty());
    }
    text_object(fields)
}

/// A copy of an optional text.
fn copy_text(text: &Option<String>) -> (copy: Option<String>)
    ensures
        copy == *text,
{
    match text {
        Some(held) => Some(held.clone()),
        None => None,
    }
}

/// The plan of the tool loop, for a run that found `facts` on the peer card.
pub fn plan_tool_loop(
    request: &RunRequest,
    catalog: ToolCatalog,
    facts: Option<Vec<String>>,
) -> (plan: ToolLoopPlan)
    ensures
        plan_fits(
            plan,
            *request,
            catalog,
            match facts {
                Some(list) => text::views(list@),
                None => Seq::empty(),
            },
        ),
{
    let enabled = peer_card_enabled(request);
    let observed = request.observed.as_str();
    let hints: Option<&[String]> = match &request.hints {
        Some(list) => Some(list.as_slice()),
        None => None,
    };
    let card: Option<&[String]> = match &facts {
        Some(list) => Some(list.as_slice()),
        None => None,
    };
    let system_prompt = request.kind.build_system_prompt(observed, enabled);
    let user_prompt = request.kind.build_user_prompt(observed, hints, card);
    let mut messages: Vec<Value> = Vec::new();
    messages.push(message("system", system_prompt));
    messages.push(message("user", user_prompt));
    assert(json::json_items(messages@) =~= opening_messages(
        *request,
        match facts {
            Some(list) => text::views(list@),
            None => Seq::empty(),
        },
    ));
    ToolLoopPlan {
        settings: ExecutorSettings {
            workspace_name: request.workspace_name.clone(),
            observer: request.observer.clone(),
            observed: request.observed.clone(),
            session_name: copy_text(&request.session_name),
            include_observation_ids: true,
            peer_card_create: request.peer_card_create,
            run_id: request.parent_run_id.clone(),
            agent_type: request.kind.name().to_string(),
            parent_category: "dream".to_string(),
            honcho_version: copy_text(&request.honcho_version),
            deduplicate: request.deduplicate,
        },
        max_output_tokens: effective_max_tokens(request),
        prompt: String::new(),
        messages,
        tools: request.kind.get_tools(enabled, catalog),
        max_iterations: request.kind.max_iterations(),
    }
}

/// Where a run stands: the action that it waits for.
pub enum RunState {
    /// The observer is being made sure of.
    CreatingObserver { request: RunRequest, catalog: ToolCatalog },
    /// The observed peer, another than the observer, is being made sure of.
    CreatingObserved { request: RunRequest, catalog: ToolCatalog },
    /// The peer card is being fetched.
    FetchingPeerCard { request: RunRequest, catalog: ToolCatalog },
    /// The model works through its tools.
    RunningToolLoop { request: RunRequest },
    /// Nothing is left to do.
    Finished,
}

/// What a run asks for.
pub enum RunAction<T, D, E> {
    /// Get the peer, or create it.
    CreatePeer { workspace_name: String, peer: String },
    /// Get the card that the observer keeps on the observed peer.
    FetchPeerCard { workspace_name: String, observer: String, observed: String },
    /// Run the tool loop.
    RunToolLoop { plan: ToolLoopPlan },
    /// Emit the event, then return the result.
    Report { event: DreamSpecialistEvent<T, D>, result: SpecialistResult<D> },
    /// Return the error of the store.
    Fail { error: E },
}

/// What came of an action.
pub enum RunReply<T, D, E> {
    PeerReady,
    PeerCard { card: Option<Value> },
    StoreFailed { error: E },
    LoopEnded { outcome: LoopOutcome, duration_ms: D, timestamp: T },
}

/// A reply that does not answer what the run had asked for.
#[derive(Debug, Clone, Copy, PartialEq, Eq, Structural)]
pub struct UnexpectedReply;

/// What the request alone fixes of a call that a run makes of its surroundings. The
/// plan of the tool loop, what is reported and an error depend on the replies:
/// `is_step` says what they are.
pub ghost enum PlannedCall {
    CreatePeer { workspace_name: Seq<char>, peer: Seq<char> },
    FetchPeerCard { workspace_name: Seq<char>, observer: Seq<char>, observed: Seq<char> },
    RunToolLoop,
    Report,
    Fail,
}

/// What the request alone fixes of the call that an action makes.
pub open spec fn planned_part<T, D, E>(action: RunAction<T, D, E>) -> PlannedCall {
    match action {
        RunAction::CreatePeer { workspace_name, peer } => PlannedCall::CreatePeer {
            workspace_name: workspace_name@,
            peer: peer@,
        },
        RunAction::FetchPeerCard { workspace_name, observer, observed } => PlannedCall::FetchPeerCard {
            workspace_name: workspace_name@,
            observer: observer@,
            observed: observed@,
        },
        RunAction::RunToolLoop { .. } => PlannedCall::RunToolLoop,
        RunAction::Report { .. } => PlannedCall::Report,
        RunAction::Fail { .. } => PlannedCall::Fail,
    }
}

/// The call for a peer of `request`.
pub open spec fn peer_call(request: RunRequest, peer: Seq<char>) -> PlannedCall {
    PlannedCall::CreatePeer { workspace_name: request.workspace_name@, peer }
}

/// The call for the peer card of `request`.
pub open spec fn card_call(request: RunRequest) -> PlannedCall {
    PlannedCall::FetchPeerCard {
        workspace_name: request.workspace_name@,
        observer: request.observer@,
        observed: request.observed@,
    }
}

/// The calls of a run from the tool loop on.
pub open spec fn loop_calls() -> Seq<PlannedCall> {
    seq![PlannedCall::RunToolLoop, PlannedCall::Report]
}

/// The calls of a run once its peers are there.
pub open spec fn card_calls(request: RunRequest) -> Seq<PlannedCall> {
    if uses_peer_card(request) {
        seq![card_call(request)] + loop_calls()
    } else {
        loop_calls()
    }
}

/// The calls of a run on a store that does not fail.
pub open spec fn planned_calls(request: RunRequest) -> Seq<PlannedCall> {
    if request.observer@ == request.observed@ {
        seq![peer_call(request, request.observer@)] + card_calls(request)
    } else {
        seq![peer_call(request, request.observer@), peer_call(request, request.observed@)]
            + card_calls(request)
    }
}

/// The calls that a run in this state has not made yet.
pub open spec fn remaining_calls(state: RunState) -> Seq<PlannedCall> {
    match state {
        RunState::CreatingObserver { request, catalog } => planned_calls(request).skip(1),
        RunState::CreatingObserved { request, catalog } => card_calls(request),
        RunState::FetchingPeerCard { request, catalog } => loop_calls(),
        RunState::RunningToolLoop { request } => seq![PlannedCall::Report],
        RunState::Finished => Seq::empty(),
    }
}

/// Whether a step asks for the tool loop of `request`.
pub open spec fn runs_loop<T, D, E>(
    step: (RunState, RunAction<T, D, E>),
    request: RunRequest,
    catalog: ToolCatalog,
    facts: Seq<Seq<char>>,
) -> bool {
    &&& step.0 == (RunState::RunningToolLoop { request })
    &&& step.1 matches RunAction::RunToolLoop { plan } && plan_fits(plan, request, catalog, facts)
}

/// Whether a step asks for the peer card of `request` where the run uses it, and
/// for the tool loop where it does not.
pub open spec fn leaves_peers<T, D, E>(
    step: (RunState, RunAction<T, D, E>),
    request: RunRequest,
    catalog: ToolCatalog,
) -> bool {
    if uses_peer_card(request) {
        &&& step.0 == (RunState::FetchingPeerCard { request, catalog })
        &&& step.1 matches RunAction::FetchPeerCard { workspace_name, observer, observed }
            && workspace_name@ == request.workspace_name@ && observer@ == request.observer@
            && observed@ == request.observed@
    } else {
        runs_loop(step, request, catalog, Seq::empty())
    }
}

/// Whether a step asks for a peer of `request`.
pub open spec fn asks_for_peer<T, D, E>(
    action: RunAction<T, D, E>,
    request: RunRequest,
    name: Seq<char>,
) -> bool {
    action matches RunAction::CreatePeer { workspace_name, peer } && workspace_name@
        == request.workspace_name@ && peer@ == name
}

/// Whether a reply answers what a run in this state has asked for.
pub open spec fn answers<T, D, E>(reply: RunReply<T, D, E>, state: RunState) -> bool {
    match state {
        RunState::CreatingObserver { .. } => reply is PeerReady || reply is StoreFailed,
        RunState::CreatingObserved { .. } => reply is PeerReady || reply is StoreFailed,
        RunState::FetchingPeerCard { .. } => reply is PeerCard || reply is StoreFailed,
        RunState::RunningToolLoop { .. } => reply is LoopEnded,
        RunState::Finished => false,
    }
}

/// Whether a step is the one that a run in `state` takes on `reply`.
pub open spec fn is_step<T, D, E>(
    state: RunState,
    reply: RunReply<T, D, E>,
    step: (RunState, RunAction<T, D, E>),
) -> bool {
    match (state, reply) {
        (_, RunReply::StoreFailed { error }) => {
            &&& step.0 == RunState::Finished
            &&& step.1 == RunAction::<T, D, E>::Fail { error }
        },
        (RunState::CreatingObserver { request, catalog }, _) => if request.observer@
            == request.observed@ {
            leaves_peers(step, request, catalog)
        } else {
            &&& step.0 == (RunState::CreatingObserved { request, catalog })
            &&& asks_for_peer(step.1, request, request.observed@)
        },
        (RunState::CreatingObserved { request, catalog }, _) => leaves_peers(
            step,
            request,
            catalog,
        ),
        (RunState::FetchingPeerCard { request, catalog }, RunReply::PeerCard { card }) => runs_loop(
            step,
            request,
            catalog,
            specialists::card_facts(
                specialists::card_contents(card),
            ),
        ),
        (
            RunState::RunningToolLoop { request },
            RunReply::LoopEnded { outcome, duration_ms, timestamp },
        ) => {
            &&& step.0 == RunState::Finished
            &&& step.1 matches RunAction::Report { event, result } && result@ == expected_result(
                request,
                outcome,
                duration_ms,
            ) && event@ == expected_event(request, outcome, duration_ms, timestamp)
        },
        _ => false,
    }
}

/// What follows once the peers of a run are there.
fn after_peers<T, D, E>(request: RunRequest, catalog: ToolCatalog) -> (step: (
    RunState,
    RunAction<T, D, E>,
))
    ensures
        leaves_peers(step, request, catalog),
{
    if peer_card_enabled(&request) {
        let action = RunAction::FetchPeerCard {
            workspace_name: request.workspace_name.clone(),
            observer: request.observer.clone(),
            observed: request.observed.clone(),
        };
        (RunState::FetchingPeerCard { request, catalog }, action)
    } else {
        let plan = plan_tool_loop(&request, catalog, None);
        (RunState::RunningToolLoop { request }, RunAction::RunToolLoop { plan })
    }
}

impl RunState {
    /// The start of a run: it asks for the observer.
    pub fn start<T, D, E>(request: RunRequest, catalog: ToolCatalog) -> (step: (
        RunState,
        RunAction<T, D, E>,
    ))
        ensures
            step.0 == (RunState::CreatingObserver { request, catalog }),
            asks_for_peer(step.1, request, request.observer@),
    {
        let action = RunAction::CreatePeer {
            workspace_name: request.workspace_name.clone(),
            peer: request.observer.clone(),
        };
        (RunState::CreatingObserver { request, catalog }, action)
    }

    /// The step that a run takes on `reply`: its next state, and the action that
    /// it asks for now. A reply to something else is refused.
    pub fn advance<T, D: Copy, E>(self, reply: RunReply<T, D, E>) -> (step: Result<
        (RunState, RunAction<T, D, E>),
        UnexpectedReply,
    >)
        ensures
            step is Ok <==> answers(reply, self),
            step is Ok ==> is_step(self, reply, step->Ok_0),
    {
        match (self, reply) {
            (RunState::CreatingObserver { request, catalog }, RunReply::PeerReady) => {
                if request.observer == request.observed {
                    Ok(after_peers(request, catalog))
                } else {
                    let action = RunAction::CreatePeer {
                        workspace_name: request.workspace_name.clone(),
                        peer: request.observed.clone(),
                    };
                    Ok((RunState::CreatingObserved { request, catalog }, action))
                }
            },
            (RunState::CreatingObserved { request, catalog }, RunReply::PeerReady) => {
                Ok(after_peers(request, catalog))
            },
            (RunState::FetchingPeerCard { request, catalog }, RunReply::PeerCard { card }) => {
                let plan = plan_tool_loop(&request, catalog, peer_card_facts(card));
                Ok((RunState::RunningToolLoop { request }, RunAction::RunToolLoop { plan }))
            },
            (
                RunState::RunningToolLoop { request },
                RunReply::LoopEnded { outcome, duration_ms, timestamp },
            ) => {
                let (result, event) = conclude(&request, outcome, duration_ms, timestamp);
                Ok((RunState::Finished, RunAction::Report { event, result }))
            },
            (RunState::CreatingObserver { .. }, RunReply::StoreFailed { error }) => {
                Ok((RunState::Finished, RunAction::Fail { error }))
            },
            (RunState::CreatingObserved { .. }, RunReply::StoreFailed { error }) => {
                Ok((RunState::Finished, RunAction::Fail { error }))
            },
            (RunState::FetchingPeerCard { .. }, RunReply::StoreFailed { error }) => {
                Ok((RunState::Finished, RunAction::Fail { error }))
            },
            _ => Err(UnexpectedReply),
        }
    }
}

} // verus!
