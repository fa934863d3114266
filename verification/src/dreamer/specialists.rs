//! The two dream specialists: their prompts, their tools and their limits.
//!
//! System prompts never name the observed peer, so that providers can cache
//! them; the peer id arrives in the user prompt, under `Target observee:`.

use serde_json::Value;
use vstd::prelude::*;

use crate::json::{self, member, Json};
use crate::text;

verus! {

/// How many hints a user prompt passes on.
pub const MAX_HINTS: usize = 5;

/// The tool that writes the peer card.
pub const PEER_CARD_TOOL: &'static str = "update_peer_card";

/// What the deduction specialist is told about the peer card it is shown.
pub const DEDUCTION_PEER_CARD_INSTRUCTION: &'static str = "Update this with `update_peer_card` only for stable identity markers. See the PEER CARD section in the system prompt for the allowed entry kinds and rules.";

/// What follows the id in the block that names the observed peer.
pub const TARGET_OBSERVEE_NOTE: &'static str = "\n\nThe target observee is the peer identified above. When created observations need to name this subject, use the exact observee id above, not the phrase \"the target observee\".\n\n";

/// The rules of the peer card, for a specialist that may write it.
pub const PEER_CARD_SECTION: &'static str = r#"

## PEER CARD (REQUIRED)

The peer card is the target observee's identity store: stable identity markers that distinguish this entity from others and persist across interactions. Behavior, tendencies, transient state, and episodic facts belong in observations, not on the peer card.

A peer can be anything with identity that changes over time — a human, an agent, a codebase, a team, an organization. Do not assume the target observee is human. Do not require any field; empty is the correct output when evidence is absent.

### Allowed entry kinds

Each entry must start with one of these four prefixes (exact case, followed by a space):

- `IDENTITY: ...` — canonical name, kind, aliases, IDs
  - `IDENTITY: Name: Alice`
  - `IDENTITY: Kind: Python monorepo`
  - `IDENTITY: Version: 4.2`
  - `IDENTITY: Aliases: alice@example.com`
- `ATTRIBUTE: ...` — stable durable property of the entity (including explicitly stated standing preferences)
  - `ATTRIBUTE: Location: NYC`
  - `ATTRIBUTE: Language: Python`
  - `ATTRIBUTE: Prefers tea`
  - `ATTRIBUTE: Charter: ship Honcho infrastructure`
- `RELATIONSHIP: ...` — durable link to another entity
  - `RELATIONSHIP: Spouse: Bob`
  - `RELATIONSHIP: Maintainer: vineeth`
  - `RELATIONSHIP: Members: vineeth, rajat`
- `INSTRUCTION: ...` — standing rule of engagement that the target observee has explicitly stated (do/don't for the observer). Only when explicit; never inferred from behavior.
  - `INSTRUCTION: Call me Vee`
  - `INSTRUCTION: Never push to main without review`

### Rules

1. **Stable.** If the value plausibly changes within six months absent a deliberate announcement, it does not belong on the card. Prefer leaving the card empty over filling it with volatile content.
2. **Subject is the target observee.** Every entry must be a fact about the target observee, not about another participant in the session. Never write facts about co-occurring peers into the card, no matter how frequently they appear in the messages.
3. **Evidence-grounded.** Only write what the target observee has explicitly stated, or what another participant has explicitly stated about the target observee with the target observee's assent. No "general knowledge" inferences (`"co-founder"` does not imply an age; mentioning a colleague does not imply a family relationship).
4. **Type-agnostic.** The target observee may not be human. Do not require name/age/location/family/occupation fields.
5. **No behavioral content.** TRAITs, behavioral tendencies, patterns, and inferred preferences belong in observations, not on the peer card. Do not write `TRAIT:` entries or behavioral `PREFERENCE:` entries — they will be rejected.
6. **No evidence bundles.** Each entry is one concise fact. No `e.g.` clauses, no parenthetical example lists, no semicolon-separated value dumps.

### Migrating an existing peer card

The CURRENT PEER CARD shown in the user message may contain entries from an older format that do not start with an allowed prefix (e.g. `Name: Alice`, `Lives in NYC`, `TRAIT: Analytical`, `PREFERENCE: Detailed explanations`). When you call `update_peer_card`, you are responsible for re-emitting the entries you want to keep — entries you omit are dropped, and entries without an allowed prefix are silently rejected.

For each legacy entry:

- If it is still a valid identity marker, re-emit it under the correct prefix and keep the original content where reasonable. Examples:
  - `Name: Alice` → `IDENTITY: Name: Alice`
  - `Lives in NYC` → `ATTRIBUTE: Location: NYC`
  - `Works at Google` → `ATTRIBUTE: Employer: Google`
  - `INSTRUCTION: Call me Vee` → keep as is (already correctly prefixed)
- Drop entries that violate the rules above: behavioral `TRAIT:` lines, inferred behavioral `PREFERENCE:` lines, one-off events, transient state, evidence bundles. Do not re-prefix them — they are not identity markers.

When in doubt about a specific legacy entry, prefer migrating it (so valid info isn't lost) over dropping it. Splitting one dense legacy entry into multiple correctly-prefixed entries is fine and encouraged (e.g. a semicolon-separated `Tech Stack:` dump can become several `ATTRIBUTE:` lines, one per durable tool/platform).

Call `update_peer_card` with the complete deduplicated list when there is a durable identity update to record, or when the existing card needs migration. Entries that do not start with one of the four allowed prefixes will be rejected. Keep concise (max 40 entries)."#;

/// The deduction specialist's system prompt, up to the peer card section.
pub const DEDUCTION_SYSTEM_HEAD: &'static str = r#"You are a deductive reasoning agent analyzing observations about the target observee.

## YOUR JOB

Create deductive observations by finding logical implications in what's already known. Think like a detective connecting evidence.

## PHASE 1: DISCOVERY

Explore what's actually in memory. Use these tools freely:
- `get_recent_observations` - See what's been learned recently
- `search_memory` - Search for specific topics
- `search_messages` - See actual conversation content

Spend a few tool calls understanding the landscape before creating anything.

## PHASE 2: ACTION

Once you understand what's there, create observations and clean up:

### Knowledge Updates (HIGH PRIORITY)
When the same fact has different values at different times:
- "meeting Tuesday" [old] → "meeting moved to Thursday" [new]
- Create a deductive update observation
- DELETE the outdated observation immediately

### Logical Implications
Extract implicit information:
- "works as SWE at Google" → "has software engineering skills", "employed in tech"
- "has kids ages 5 and 8" → "is a parent", "has school-age children"

### Contradictions
When statements can't both be true (not just updates), flag them:
- "I love coffee" vs "I hate coffee" → contradiction observation
"#;

/// The deduction specialist's system prompt, from the peer card section on.
pub const DEDUCTION_SYSTEM_TAIL: &'static str = r#"

## CREATING OBSERVATIONS

Use `create_observations_deductive`.

```json
{
  "observations": [{
    "content": "The logical conclusion",
    "source_ids": ["id1", "id2"],
    "premises": ["premise 1 text", "premise 2 text"]
  }]
}
```

## RULES

1. Don't explain your reasoning - just call tools
2. Create observations based on what you ACTUALLY FIND, not what you expect
3. Always include source_ids linking to the observations you're synthesizing
4. Empty or missing source_ids will be rejected
5. Delete outdated observations - don't leave duplicates
6. Quality over quantity - fewer good deductions beat many weak ones"#;

/// The induction specialist's system prompt. The braces of its JSON example are
/// doubled.
pub const INDUCTION_SYSTEM: &'static str = r#"You are an inductive reasoning agent identifying patterns about the target observee.

## YOUR JOB

Create inductive observations by finding patterns across multiple observations. Think like a psychologist identifying behavioral tendencies.

## PHASE 1: DISCOVERY

Explore broadly to find patterns. Use these tools:
- `get_recent_observations` - Recent learnings
- `search_memory` - Topic-specific search
- `search_messages` - Actual conversation content

Look at BOTH explicit observations AND deductive ones. Patterns often emerge from synthesizing across both levels.

## PHASE 2: ACTION

Create inductive observations when you see patterns:

### Behavioral Patterns
- "Tends to reschedule meetings when stressed"
- "Makes decisions after consulting with partner"
- "Projects follow: enthusiasm → doubt → completion"

### Preferences
- "Prefers morning meetings"
- "Likes detailed technical explanations"

### Personality Traits
- "Generally optimistic about outcomes"
- "Detail-oriented in planning"

### Temporal Patterns
- "Career goals have remained consistent"
- "Living situation changes frequently"

## CREATING OBSERVATIONS

Use `create_observations_inductive`.

```json
{{
  "observations": [{{
    "content": "The pattern or generalization",
    "source_ids": ["id1", "id2", "id3"],
    "sources": ["evidence 1", "evidence 2"],
    "pattern_type": "tendency", // preference|behavior|personality|tendency|correlation
    "confidence": "medium" // low (2 sources), medium (3-4), high (5+)
  }}]
}}
```

## RULES

1. Minimum 2 source observations required - patterns need evidence
2. Don't just restate a single fact as a pattern
3. Confidence based on evidence count: 2=low, 3-4=medium, 5+=high
4. Look for HOW things change over time, not just static facts
5. Include source_ids - always link back to evidence
6. Empty or missing source_ids will be rejected"#;

/// What the deduction specialist is told before the hints.
pub const DEDUCTION_HINTS_HEAD: &'static str = "Start by exploring recent observations and messages. These topics may be worth investigating:\n\n";

/// What the deduction specialist is told after the hints.
pub const DEDUCTION_HINTS_TAIL: &'static str = "\n\nBut follow the evidence - if you find something more interesting, pursue that instead.\n\nBegin with `get_recent_observations` to see what's there.";

/// What the deduction specialist is told when there are no hints.
pub const DEDUCTION_WITHOUT_HINTS: &'static str = "Explore the observation space and create deductive observations.\n\nStart with `get_recent_observations` to see what's been learned recently, then investigate whatever seems most promising.\n\nLook for:\n1. Knowledge updates (same fact, different values over time)\n2. Logical implications that haven't been made explicit\n3. Contradictions that need flagging\n\nGo.";

/// What the induction specialist is told before the hints.
pub const INDUCTION_HINTS_HEAD: &'static str = "Explore and find patterns. These areas may be worth investigating:\n\n";

/// What the induction specialist is told after the hints.
pub const INDUCTION_HINTS_TAIL: &'static str = "\n\nBut follow the evidence - if you find patterns elsewhere, pursue those.\n\nStart with `get_recent_observations`.";

/// What the induction specialist is told when there are no hints.
pub const INDUCTION_WITHOUT_HINTS: &'static str = "Explore the observation space and identify patterns.\n\nRemember: patterns need 2+ sources. Look for tendencies, preferences, and behavioral regularities.\n\nGo.";

/// The views of an optional list of texts.
pub open spec fn texts_of(texts: Option<&[String]>) -> Option<Seq<Seq<char>>> {
    match texts {
        None => None,
        Some(list) => Some(text::views(list@)),
    }
}

/// `items` as a list, one line each, each behind a dash.
pub open spec fn bullet_text(items: Seq<Seq<char>>) -> Seq<char> {
    text::joined(items.map_values(|item: Seq<char>| "- "@ + item), "\n"@)
}

/// The hints that are passed on: the first few.
pub open spec fn used_hints(hints: Seq<Seq<char>>) -> Seq<Seq<char>> {
    if hints.len() <= MAX_HINTS {
        hints
    } else {
        hints.take(MAX_HINTS as int)
    }
}

/// The block that names the observed peer.
pub open spec fn target_observee_text(observed: Seq<char>) -> Seq<char> {
    "Target observee:\n"@ + observed + TARGET_OBSERVEE_NOTE@
}

/// The block that shows the peer card: empty when there is no card or nothing
/// on it.
pub open spec fn peer_card_text(
    peer_card: Option<Seq<Seq<char>>>,
    instruction: Seq<char>,
) -> Seq<char> {
    if peer_card is Some && peer_card->0.len() > 0 {
        "\n## CURRENT PEER CARD\n\n"@ + bullet_text(peer_card->0) + "\n\n"@ + instruction
            + "\nIf you update it, send the full deduplicated list and remove stale entries.\n\n"@
    } else {
        Seq::empty()
    }
}

/// What a specialist is told to explore: with the hints between `head` and
/// `tail`, or with `otherwise` when there are none.
pub open spec fn exploration_text(
    hints: Option<Seq<Seq<char>>>,
    head: Seq<char>,
    tail: Seq<char>,
    otherwise: Seq<char>,
) -> Seq<char> {
    if hints is Some && hints->0.len() > 0 {
        head + bullet_text(used_hints(hints->0)) + tail
    } else {
        otherwise
    }
}

/// The deduction specialist's system prompt.
pub open spec fn deduction_system_text(peer_card_enabled: bool) -> Seq<char> {
    DEDUCTION_SYSTEM_HEAD@ + (if peer_card_enabled {
        PEER_CARD_SECTION@
    } else {
        Seq::empty()
    }) + DEDUCTION_SYSTEM_TAIL@
}

/// The deduction specialist's user prompt.
pub open spec fn deduction_user_text(
    observed: Seq<char>,
    hints: Option<Seq<Seq<char>>>,
    peer_card: Option<Seq<Seq<char>>>,
) -> Seq<char> {
    target_observee_text(observed) + peer_card_text(peer_card, DEDUCTION_PEER_CARD_INSTRUCTION@)
        + exploration_text(
        hints,
        DEDUCTION_HINTS_HEAD@,
        DEDUCTION_HINTS_TAIL@,
        DEDUCTION_WITHOUT_HINTS@,
    )
}

/// The induction specialist's user prompt.
pub open spec fn induction_user_text(
    observed: Seq<char>,
    hints: Option<Seq<Seq<char>>>,
) -> Seq<char> {
    target_observee_text(observed) + exploration_text(
        hints,
        INDUCTION_HINTS_HEAD@,
        INDUCTION_HINTS_TAIL@,
        INDUCTION_WITHOUT_HINTS@,
    )
}

/// The first `count` of `items` as a list, one line each, each behind a dash.
fn bullet_list(items: &[String], count: usize) -> (list: String)
    requires
        count <= items@.len(),
    ensures
        list@ == bullet_text(text::views(items@).take(count as int)),
{
    let ghost all = text::views(items@);
    let mut list = String::new();
    let mut i: usize = 0;
    while i < count
        invariant
            i <= count <= items@.len(),
            all == text::views(items@),
            list@ == bullet_text(all.take(i as int)),
        decreases count - i,
    {
        let ghost lines = all.take(i as int).map_values(|item: Seq<char>| "- "@ + item);
        let ghost line = "- "@ + all[i as int];
        let ghost before = list@;
        if i > 0 {
            list.append("\n");
        }
        list.append("- ");
        list.append(items[i].as_str());
        proof {
            text::lemma_joined_push(lines, "\n"@, line);
            assert(all.take(i + 1).map_values(|item: Seq<char>| "- "@ + item) =~= lines.push(line));
            if i > 0 {
                assert(list@ =~= before + "\n"@ + line);
            } else {
                assert(list@ =~= line);
            }
        }
        i += 1;
    }
    list
}

/// The block that names the observed peer; it opens every user prompt.
pub fn build_target_observee_context(observed: &str) -> (context: String)
    ensures
        context@ == target_observee_text(observed@),
{
    let mut context = "Target observee:\n".to_string();
    context.append(observed);
    context.append(TARGET_OBSERVEE_NOTE);
    context
}

/// The block that shows the peer card, followed by what to do with it: empty when
/// there is no card or nothing on it.
pub fn build_peer_card_context(peer_card: Option<&[String]>, instruction: &str) -> (context: String)
    ensures
        context@ == peer_card_text(texts_of(peer_card), instruction@),
{
    match peer_card {
        Some(facts) if facts.len() > 0 => {
            let list = bullet_list(facts, facts.len());
            let ghost all = text::views(facts@);
            assert(all.take(all.len() as int) =~= all);
            let mut context = "\n## CURRENT PEER CARD\n\n".to_string();
            context.append(list.as_str());
            context.append("\n\n");
            context.append(instruction);
            context.append("\nIf you update it, send the full deduplicated list and remove stale entries.\n\n");
            context
        },
        _ => String::new(),
    }
}

/// What a specialist is told to explore.
fn build_exploration(
    hints: Option<&[String]>,
    head: &str,
    tail: &str,
    otherwise: &str,
) -> (exploration: String)
    ensures
        exploration@ == exploration_text(texts_of(hints), head@, tail@, otherwise@),
{
    match hints {
        Some(hints) if hints.len() > 0 => {
            let count: usize = if hints.len() < MAX_HINTS {
                hints.len()
            } else {
                MAX_HINTS
            };
            let list = bullet_list(hints, count);
            let ghost all = text::views(hints@);
            assert(all.take(count as int) =~= used_hints(all));
            let mut exploration = head.to_string();
            exploration.append(list.as_str());
            exploration.append(tail);
            exploration
        },
        _ => otherwise.to_string(),
    }
}

/// The deduction specialist's system prompt; with the rules of the peer card
/// where it may write one. It is the same for every observed peer.
pub fn deduction_system_prompt(observed: &str, peer_card_enabled: bool) -> (prompt: String)
    ensures
        prompt@ == deduction_system_text(peer_card_enabled),
{
    let _ = observed;
    let mut prompt = DEDUCTION_SYSTEM_HEAD.to_string();
    if peer_card_enabled {
        prompt.append(PEER_CARD_SECTION);
    }
    prompt.append(DEDUCTION_SYSTEM_TAIL);
    assert(prompt@ =~= deduction_system_text(peer_card_enabled));
    prompt
}

/// The deduction specialist's user prompt: the observed peer, the peer card and
/// the first hints.
pub fn deduction_user_prompt(
    observed: &str,
    hints: Option<&[String]>,
    peer_card: Option<&[String]>,
) -> (prompt: String)
    ensures
        prompt@ == deduction_user_text(observed@, texts_of(hints), texts_of(peer_card)),
{
    let mut prompt = build_target_observee_context(observed);
    let card = build_peer_card_context(peer_card, DEDUCTION_PEER_CARD_INSTRUCTION);
    let exploration = build_exploration(
        hints,
        DEDUCTION_HINTS_HEAD,
        DEDUCTION_HINTS_TAIL,
        DEDUCTION_WITHOUT_HINTS,
    );
    prompt.append(card.as_str());
    prompt.append(exploration.as_str());
    prompt
}

/// The induction specialist's system prompt. It is the same for every observed
/// peer.
pub fn induction_system_prompt(observed: &str) -> (prompt: String)
    ensures
        prompt@ == INDUCTION_SYSTEM@,
{
    let _ = observed;
    INDUCTION_SYSTEM.to_string()
}

/// The induction specialist's user prompt: the observed peer and the first hints.
pub fn induction_user_prompt(observed: &str, hints: Option<&[String]>) -> (prompt: String)
    ensures
        prompt@ == induction_user_text(observed@, texts_of(hints)),
{
    let mut prompt = build_target_observee_context(observed);
    let exploration = build_exploration(
        hints,
        INDUCTION_HINTS_HEAD,
        INDUCTION_HINTS_TAIL,
        INDUCTION_WITHOUT_HINTS,
    );
    prompt.append(exploration.as_str());
    prompt
}

/// The two dream specialists.
#[derive(Debug, Clone, Copy, PartialEq, Eq, Structural)]
pub enum SpecialistKind {
    Deduction,
    Induction,
}

/// The tools that the specialists are offered.
pub struct ToolCatalog {
    pub deduction: Vec<Value>,
    pub induction: Vec<Value>,
}

/// Whether a tool schema is the one of the tool called `name`.
pub open spec fn is_tool(schema: Json, name: Seq<char>) -> bool {
    schema matches Json::Object(members) && members.contains_pair(
        "name"@,
        Json::Text(name),
    )
}

/// `tools` without the one that writes the peer card.
pub open spec fn without_peer_card_tool(tools: Seq<Value>) -> Seq<Value> {
    tools.filter(|tool: Value| !is_tool(json::json_contents(tool), PEER_CARD_TOOL@))
}

impl SpecialistKind {
    /// The slug of the specialist.
    pub open spec fn slug(self) -> Seq<char> {
        match self {
            SpecialistKind::Deduction => "deduction"@,
            SpecialistKind::Induction => "induction"@,
        }
    }

    /// Whether the specialist works with the peer card: deduction does.
    pub open spec fn writes_peer_card(self) -> bool {
        self == SpecialistKind::Deduction
    }

    /// How many tokens the specialist may write.
    pub open spec fn token_budget(self) -> int {
        8192
    }

    /// How many rounds of tool calls the specialist has.
    pub open spec fn iteration_limit(self) -> nat {
        match self {
            SpecialistKind::Deduction => 12,
            SpecialistKind::Induction => 10,
        }
    }

    /// The specialist's system prompt for the peer `observed`.
    pub open spec fn system_text(self, observed: Seq<char>, peer_card_enabled: bool) -> Seq<char> {
        match self {
            SpecialistKind::Deduction => deduction_system_text(peer_card_enabled),
            SpecialistKind::Induction => INDUCTION_SYSTEM@,
        }
    }

    /// The specialist's user prompt for the peer `observed`.
    pub open spec fn user_text(
        self,
        observed: Seq<char>,
        hints: Option<Seq<Seq<char>>>,
        peer_card: Option<Seq<Seq<char>>>,
    ) -> Seq<char> {
        match self {
            SpecialistKind::Deduction => deduction_user_text(observed, hints, peer_card),
            SpecialistKind::Induction => induction_user_text(observed, hints),
        }
    }

    /// The tools that the specialist is offered out of those that it may have.
    pub open spec fn offered_tools(
        self,
        deduction: Seq<Value>,
        induction: Seq<Value>,
        peer_card_enabled: bool,
    ) -> Seq<Value> {
        match self {
            SpecialistKind::Deduction => if peer_card_enabled {
                deduction
            } else {
                without_peer_card_tool(deduction)
            },
            SpecialistKind::Induction => induction,
        }
    }

    /// The slug of the specialist.
    pub fn name(self) -> (slug: &'static str)
        ensures
            slug@ == self.slug(),
    {
        match self {
            SpecialistKind::Deduction => "deduction",
            SpecialistKind::Induction => "induction",
        }
    }

    /// Whether the specialist may write the peer card: induction never does.
    pub fn can_update_peer_card(self) -> (can: bool)
        ensures
            can == self.writes_peer_card(),
    {
        matches!(self, SpecialistKind::Deduction)
    }

    /// How many tokens the specialist may write, unless the model is configured
    /// otherwise.
    pub fn max_tokens(self) -> (tokens: i64)
        ensures
            tokens == self.token_budget(),
    {
        8192
    }

    /// How many rounds of tool calls the specialist has.
    pub fn max_iterations(self) -> (iterations: usize)
        ensures
            iterations == self.iteration_limit(),
    {
        match self {
            SpecialistKind::Deduction => 12,
            SpecialistKind::Induction => 10,
        }
    }

    /// The specialist's system prompt.
    pub fn build_system_prompt(self, observed: &str, peer_card_enabled: bool) -> (prompt: String)
        ensures
            prompt@ == self.system_text(observed@, peer_card_enabled),
    {
        match self {
            SpecialistKind::Deduction => deduction_system_prompt(observed, peer_card_enabled),
            SpecialistKind::Induction => induction_system_prompt(observed),
        }
    }

    /// The specialist's user prompt. Induction is never shown the peer card.
    pub fn build_user_prompt(
        self,
        observed: &str,
        hints: Option<&[String]>,
        peer_card: Option<&[String]>,
    ) -> (prompt: String)
        ensures
            prompt@ == self.user_text(observed@, texts_of(hints), texts_of(peer_card)),
    {
        match self {
            SpecialistKind::Deduction => deduction_user_prompt(observed, hints, peer_card),
            SpecialistKind::Induction => induction_user_prompt(observed, hints),
        }
    }

    /// The tools that the specialist is offered: deduction loses the one that
    /// writes the peer card when the card is disabled, induction ignores the flag.
    pub fn get_tools(self, peer_card_enabled: bool, catalog: ToolCatalog) -> (tools: Vec<Value>)
        ensures
            tools@ == self.offered_tools(
                catalog.deduction@,
                catalog.induction@,
                peer_card_enabled,
            ),
    {
        match self {
            SpecialistKind::Deduction => {
                if peer_card_enabled {
                    catalog.deduction
                } else {
                    drop_peer_card_tool(catalog.deduction)
                }
            },
            SpecialistKind::Induction => catalog.induction,
        }
    }
}

/// Whether `schema` is the schema of the tool called `name`.
fn is_schema_of(schema: &Value, name: &str) -> (found: bool)
    ensures
        found == is_tool(json::json_contents(*schema), name@),
{
    match member(schema, "name") {
        Some(held) => match held.as_str() {
            Some(text) => text.to_string() == name.to_string(),
            None => false,
        },
        None => false,
    }
}

/// `tools` without the one that writes the peer card.
fn drop_peer_card_tool(tools: Vec<Value>) -> (kept: Vec<Value>)
    ensures
        kept@ == without_peer_card_tool(tools@),
{
    let ghost all = tools@;
    let ghost keeps = |tool: Value| !is_tool(json::json_contents(tool), PEER_CARD_TOOL@);
    let mut kept: Vec<Value> = Vec::new();
    proof {
        reveal(Seq::filter);
    }
    for tool in it: tools
        invariant
            it.seq() == all,
            keeps == (|tool: Value|
                !is_tool(json::json_contents(tool), PEER_CARD_TOOL@)),
            kept@ == all.take(it.index()).filter(keeps),
    {
        proof {
            reveal(Seq::filter);
            assert(all.take(it.index() + 1).drop_last() =~= all.take(it.index()));
        }
        if !is_schema_of(&tool, PEER_CARD_TOOL) {
            kept.push(tool);
        }
    }
    assert(all.take(all.len() as int) =~= all);
    kept
}

/// The text of a JSON string; `None` for any other kind of value.
pub open spec fn fact_of(item: Json) -> Option<Seq<char>> {
    match item {
        Json::Text(text) => Some(text),
        _ => None,
    }
}

/// The facts of a stored peer card: the strings in the array that it holds under
/// `peer_card`, in order.
pub open spec fn card_facts(card: Option<Json>) -> Seq<Seq<char>> {
    match card {
        Some(Json::Object(members)) => if members.dom().contains("peer_card"@) {
            match members["peer_card"@] {
                Json::Array(items) => items.filter_map(|item: Json| fact_of(item)),
                _ => Seq::empty(),
            }
        } else {
            Seq::empty()
        },
        _ => Seq::empty(),
    }
}

/// What an optional JSON value holds.
pub open spec fn card_contents(card: Option<Value>) -> Option<Json> {
    match card {
        None => None,
        Some(value) => Some(json::json_contents(value)),
    }
}

/// The strings of `items`, in order.
fn facts_in(items: &Vec<Value>) -> (facts: Vec<String>)
    ensures
        text::views(facts@) == json::json_items(items@).filter_map(
            |item: Json| fact_of(item),
        ),
{
    let ghost all = json::json_items(items@);
    let ghost pick = |item: Json| fact_of(item);
    let mut facts: Vec<String> = Vec::new();
    let mut i: usize = 0;
    while i < items.len()
        invariant
            i <= items@.len(),
            all == json::json_items(items@),
            pick == (|item: Json| fact_of(item)),
            text::views(facts@) == all.take(i as int).filter_map(pick),
        decreases items@.len() - i,
    {
        proof {
            all.lemma_filter_map_take_succ(pick, i as int);
        }
        let ghost before = facts@;
        if let Some(text) = items[i].as_str() {
            facts.push(text.to_string());
            assert(text::views(facts@) =~= text::views(before).push(text@));
        }
        i += 1;
    }
    assert(all.take(all.len() as int) =~= all);
    facts
}

/// The facts of a stored peer card, or `None` when there are none.
pub fn peer_card_facts(card: Option<Value>) -> (facts: Option<Vec<String>>)
    ensures
        facts is Some <==> card_facts(card_contents(card)).len() > 0,
        facts is Some ==> text::views(facts->0@) == card_facts(card_contents(card)),
{
    match card {
        None => None,
        Some(value) => match member(&value, "peer_card") {
            None => None,
            Some(held) => match held.as_array() {
                None => None,
                Some(items) => {
                    let facts = facts_in(items);
                    if facts.len() == 0 {
                        None
                    } else {
                        Some(facts)
                    }
                },
            },
        },
    }
}

} // verus!
