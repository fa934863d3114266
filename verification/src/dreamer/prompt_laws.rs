//! What a specialist is told, shown and offered, piece by piece.

use serde_json::Value;
use vstd::prelude::*;

use crate::dreamer::specialists::{
    self, SpecialistKind, DEDUCTION_HINTS_HEAD, DEDUCTION_HINTS_TAIL,
    DEDUCTION_PEER_CARD_INSTRUCTION, DEDUCTION_SYSTEM_HEAD, DEDUCTION_SYSTEM_TAIL,
    DEDUCTION_WITHOUT_HINTS, INDUCTION_HINTS_HEAD, INDUCTION_HINTS_TAIL, INDUCTION_SYSTEM,
    INDUCTION_WITHOUT_HINTS, PEER_CARD_SECTION, TARGET_OBSERVEE_NOTE,
};
use crate::json::{self, Json};
use crate::text;

verus! {

/// The names and the limits of the specialists; deduction alone may write the peer
/// card.
pub proof fn law_names_and_limits(kind: SpecialistKind)
    ensures
        SpecialistKind::Deduction.slug() == "deduction"@,
        SpecialistKind::Induction.slug() == "induction"@,
        SpecialistKind::Deduction.writes_peer_card(),
        !SpecialistKind::Induction.writes_peer_card(),
        kind.token_budget() == 8192,
        SpecialistKind::Deduction.iteration_limit() == 12,
        SpecialistKind::Induction.iteration_limit() == 10,
{
}

/// A list of nothing is empty, a list of one item is one line behind a dash, and
/// each further item goes behind the others on a line of its own, whole.
pub proof fn law_each_item_has_its_line(items: Seq<Seq<char>>, item: Seq<char>)
    ensures
        specialists::bullet_text(Seq::empty()) == Seq::<char>::empty(),
        specialists::bullet_text(seq![item]) == "- "@ + item,
        items.len() > 0 ==> specialists::bullet_text(items.push(item)) == specialists::bullet_text(
            items,
        ) + "\n"@ + "- "@ + item,
{
    let lines = items.map_values(|each: Seq<char>| "- "@ + each);
    let line = "- "@ + item;
    assert(Seq::<Seq<char>>::empty().map_values(|each: Seq<char>| "- "@ + each) =~= Seq::empty());
    assert(seq![item].map_values(|each: Seq<char>| "- "@ + each) =~= seq![line]);
    assert(items.push(item).map_values(|each: Seq<char>| "- "@ + each) =~= lines.push(line));
    text::law_joining(lines, "\n"@, line);
    if items.len() > 0 {
        assert(specialists::bullet_text(items) + "\n"@ + line =~= specialists::bullet_text(items)
            + "\n"@ + "- "@ + item);
    }
}

/// The views of an optional list of texts are those of its texts, one by one.
pub proof fn law_views_of_optional_list(list: &[String])
    ensures
        specialists::texts_of(None) == None::<Seq<Seq<char>>>,
        specialists::texts_of(Some(list)) is Some,
        specialists::texts_of(Some(list))->0.len() == list@.len(),
        forall|i: int|
            0 <= i < list@.len() ==> #[trigger] specialists::texts_of(Some(list))->0[i]
                == list@[i]@,
{
}

/// The block on the observed peer holds the id whole.
pub proof fn law_observee_block(observed: Seq<char>)
    ensures
        specialists::target_observee_text(observed) == "Target observee:\n"@ + observed
            + TARGET_OBSERVEE_NOTE@,
{
}

/// The block on the peer card shows every fact, in order, and then the
/// instruction; without a card and with an empty one there is none.
pub proof fn law_peer_card_block(card: Seq<Seq<char>>, instruction: Seq<char>)
    ensures
        specialists::peer_card_text(None, instruction) == Seq::<char>::empty(),
        card.len() == 0 ==> specialists::peer_card_text(Some(card), instruction) == Seq::<
            char,
        >::empty(),
        card.len() > 0 ==> specialists::peer_card_text(Some(card), instruction)
            == "\n## CURRENT PEER CARD\n\n"@ + specialists::bullet_text(card) + "\n\n"@
            + instruction
            + "\nIf you update it, send the full deduplicated list and remove stale entries.\n\n"@,
{
}

/// Whatever the hints, and where there are none, a card with facts goes between the
/// block on the observed peer and what follows it without a card: every fact, in
/// order, each on its line behind a dash, and then the instruction to update it.
pub proof fn law_peer_card_is_shown_whatever_the_hints(
    observed: Seq<char>,
    hints: Option<Seq<Seq<char>>>,
    card: Seq<Seq<char>>,
)
    requires
        card.len() > 0,
    ensures
        ({
            let opening = "Target observee:\n"@ + observed + TARGET_OBSERVEE_NOTE@;
            let without = specialists::deduction_user_text(observed, hints, None);
            &&& opening.is_prefix_of(without)
            &&& specialists::deduction_user_text(observed, hints, Some(Seq::empty())) == without
            &&& specialists::deduction_user_text(observed, hints, Some(card)) == opening
                + "\n## CURRENT PEER CARD\n\n"@ + specialists::bullet_text(card) + "\n\n"@
                + DEDUCTION_PEER_CARD_INSTRUCTION@
                + "\nIf you update it, send the full deduplicated list and remove stale entries.\n\n"@
                + without.skip(opening.len() as int)
        }),
{
    let opening = "Target observee:\n"@ + observed + TARGET_OBSERVEE_NOTE@;
    let without = specialists::deduction_user_text(observed, hints, None);
    let rest = specialists::exploration_text(
        hints,
        DEDUCTION_HINTS_HEAD@,
        DEDUCTION_HINTS_TAIL@,
        DEDUCTION_WITHOUT_HINTS@,
    );
    assert(without =~= opening + rest);
    assert(opening =~= without.take(opening.len() as int));
    assert(without.skip(opening.len() as int) =~= rest);
    assert(specialists::deduction_user_text(observed, hints, Some(card)) =~= opening
        + "\n## CURRENT PEER CARD\n\n"@ + specialists::bullet_text(card) + "\n\n"@
        + DEDUCTION_PEER_CARD_INSTRUCTION@
        + "\nIf you update it, send the full deduplicated list and remove stale entries.\n\n"@
        + rest);
}

/// Without a card the user prompt of deduction is the block on the observed peer,
/// and then the first five hints, or all of them where there are fewer; without
/// hints, what is said in their place.
pub proof fn law_deduction_is_shown_the_first_five_hints(
    observed: Seq<char>,
    hints: Seq<Seq<char>>,
)
    ensures
        specialists::deduction_user_text(observed, None, None) == "Target observee:\n"@ + observed
            + TARGET_OBSERVEE_NOTE@ + DEDUCTION_WITHOUT_HINTS@,
        hints.len() == 0 ==> specialists::deduction_user_text(observed, Some(hints), None)
            == "Target observee:\n"@ + observed + TARGET_OBSERVEE_NOTE@ + DEDUCTION_WITHOUT_HINTS@,
        0 < hints.len() <= 5 ==> specialists::deduction_user_text(observed, Some(hints), None)
            == "Target observee:\n"@ + observed + TARGET_OBSERVEE_NOTE@ + DEDUCTION_HINTS_HEAD@
            + specialists::bullet_text(hints) + DEDUCTION_HINTS_TAIL@,
        hints.len() > 5 ==> specialists::deduction_user_text(observed, Some(hints), None)
            == "Target observee:\n"@ + observed + TARGET_OBSERVEE_NOTE@ + DEDUCTION_HINTS_HEAD@
            + specialists::bullet_text(hints.take(5)) + DEDUCTION_HINTS_TAIL@,
{
    let opening = "Target observee:\n"@ + observed + TARGET_OBSERVEE_NOTE@;
    let shown = specialists::bullet_text(specialists::used_hints(hints));
    assert(specialists::deduction_user_text(observed, None, None) =~= opening
        + DEDUCTION_WITHOUT_HINTS@);
    assert(opening + Seq::empty() + DEDUCTION_WITHOUT_HINTS@ =~= opening
        + DEDUCTION_WITHOUT_HINTS@);
    assert(opening + Seq::empty() + (DEDUCTION_HINTS_HEAD@ + shown + DEDUCTION_HINTS_TAIL@)
        =~= opening + DEDUCTION_HINTS_HEAD@ + shown + DEDUCTION_HINTS_TAIL@);
}

/// The user prompt of induction is the block on the observed peer, and then the
/// first five hints, or all of them where there are fewer; without hints, what is
/// said in their place.
pub proof fn law_induction_is_shown_the_first_five_hints(
    observed: Seq<char>,
    hints: Seq<Seq<char>>,
)
    ensures
        specialists::induction_user_text(observed, None) == "Target observee:\n"@ + observed
            + TARGET_OBSERVEE_NOTE@ + INDUCTION_WITHOUT_HINTS@,
        hints.len() == 0 ==> specialists::induction_user_text(observed, Some(hints))
            == "Target observee:\n"@ + observed + TARGET_OBSERVEE_NOTE@ + INDUCTION_WITHOUT_HINTS@,
        0 < hints.len() <= 5 ==> specialists::induction_user_text(observed, Some(hints))
            == "Target observee:\n"@ + observed + TARGET_OBSERVEE_NOTE@ + INDUCTION_HINTS_HEAD@
            + specialists::bullet_text(hints) + INDUCTION_HINTS_TAIL@,
        hints.len() > 5 ==> specialists::induction_user_text(observed, Some(hints))
            == "Target observee:\n"@ + observed + TARGET_OBSERVEE_NOTE@ + INDUCTION_HINTS_HEAD@
            + specialists::bullet_text(hints.take(5)) + INDUCTION_HINTS_TAIL@,
{
    let opening = "Target observee:\n"@ + observed + TARGET_OBSERVEE_NOTE@;
    let shown = specialists::bullet_text(specialists::used_hints(hints));
    assert(opening + (INDUCTION_HINTS_HEAD@ + shown + INDUCTION_HINTS_TAIL@) =~= opening
        + INDUCTION_HINTS_HEAD@ + shown + INDUCTION_HINTS_TAIL@);
}

/// A specialist has its own prompts, whatever the peer, the hints and the card;
/// the system prompt of deduction holds the rules of the peer card just where it
/// is enabled.
pub proof fn law_each_specialist_has_its_own_prompts(
    observed: Seq<char>,
    hints: Option<Seq<Seq<char>>>,
    card: Option<Seq<Seq<char>>>,
    enabled: bool,
)
    ensures
        SpecialistKind::Deduction.user_text(observed, hints, card)
            == specialists::deduction_user_text(observed, hints, card),
        SpecialistKind::Induction.user_text(observed, hints, card)
            == specialists::induction_user_text(observed, hints),
        SpecialistKind::Deduction.system_text(observed, enabled)
            == specialists::deduction_system_text(enabled),
        SpecialistKind::Induction.system_text(observed, enabled) == INDUCTION_SYSTEM@,
        specialists::deduction_system_text(true) == DEDUCTION_SYSTEM_HEAD@ + PEER_CARD_SECTION@
            + DEDUCTION_SYSTEM_TAIL@,
        specialists::deduction_system_text(false) == DEDUCTION_SYSTEM_HEAD@
            + DEDUCTION_SYSTEM_TAIL@,
{
    assert(DEDUCTION_SYSTEM_HEAD@ + Seq::empty() =~= DEDUCTION_SYSTEM_HEAD@);
}

/// With the peer card disabled deduction is offered no tool that holds the name of
/// the one that writes it, whatever else its schema holds, and every other tool.
pub proof fn law_no_tool_of_that_name_is_offered(
    deduction: Seq<Value>,
    induction: Seq<Value>,
    tool: Value,
)
    ensures
        ({
            let offered = SpecialistKind::Deduction.offered_tools(deduction, induction, false);
            if (json::json_contents(tool) matches Json::Object(members) && members.contains_pair(
                "name"@,
                Json::Text("update_peer_card"@),
            )) {
                !offered.contains(tool)
            } else {
                offered.contains(tool) <==> deduction.contains(tool)
            }
        }),
{
    crate::dreamer::laws::law_disabled_peer_card_takes_its_tool_away(deduction, induction, tool);
}

/// Tools are offered one by one, in the order of the catalog: those of two parts
/// are those of the first and then those of the second, and a tool alone is
/// offered, unless it is an object that holds the name of the one that writes the
/// peer card.
pub proof fn law_tools_are_offered_one_by_one(
    one: Seq<Value>,
    other: Seq<Value>,
    induction: Seq<Value>,
    tool: Value,
)
    ensures
        SpecialistKind::Deduction.offered_tools(one + other, induction, false)
            == SpecialistKind::Deduction.offered_tools(one, induction, false)
            + SpecialistKind::Deduction.offered_tools(other, induction, false),
        SpecialistKind::Deduction.offered_tools(Seq::empty(), induction, false) == Seq::<
            Value,
        >::empty(),
        SpecialistKind::Deduction.offered_tools(seq![tool], induction, false) == if (
        json::json_contents(tool) matches Json::Object(members) && members.contains_pair(
            "name"@,
            Json::Text("update_peer_card"@),
        )) {
            Seq::empty()
        } else {
            seq![tool]
        },
{
    let keeps = |t: Value|
        !specialists::is_tool(json::json_contents(t), specialists::PEER_CARD_TOOL@);
    Seq::filter_distributes_over_add(one, other, keeps);
    reveal(Seq::filter);
    assert(seq![tool].drop_last() =~= Seq::empty());
    assert(Seq::<Value>::empty().filter(keeps) =~= Seq::empty());
    assert(Seq::<Value>::empty().push(tool) =~= seq![tool]);
    assert(keeps(tool) == !(json::json_contents(tool) matches Json::Object(members)
        && members.contains_pair("name"@, Json::Text("update_peer_card"@))));
}

/// With the peer card enabled deduction is offered its whole catalog; induction
/// always is offered its own.
pub proof fn law_whole_catalogs_are_offered(
    deduction: Seq<Value>,
    induction: Seq<Value>,
    enabled: bool,
)
    ensures
        SpecialistKind::Deduction.offered_tools(deduction, induction, true) == deduction,
        SpecialistKind::Induction.offered_tools(deduction, induction, enabled) == induction,
{
}

/// What a stored card that is an object with an array under `peer_card` holds,
/// whatever its other members: each string is a fact, behind those before it, and
/// anything else is none.
pub proof fn law_each_string_is_a_fact(
    before: Map<Seq<char>, Json>,
    card: Map<Seq<char>, Json>,
    items: Seq<Json>,
    item: Json,
)
    requires
        before.contains_pair("peer_card"@, Json::Array(items)),
        card.contains_pair("peer_card"@, Json::Array(items.push(item))),
    ensures
        items.len() == 0 ==> specialists::card_facts(Some(Json::Object(before))).len() == 0,
        specialists::card_facts(Some(Json::Object(card))) == match item {
            Json::Text(fact) => specialists::card_facts(Some(Json::Object(before))).push(fact),
            _ => specialists::card_facts(Some(Json::Object(before))),
        },
{
    let pick = |each: Json| specialists::fact_of(each);
    let all = items.push(item);
    let n = items.len() as int;
    all.lemma_filter_map_take_succ(pick, n);
    assert(all.take(n) =~= items);
    assert(all.take(n + 1) =~= all);
}

/// A card that is absent, no object, without `peer_card`, or with something other
/// than an array under it holds no fact.
pub proof fn law_other_cards_hold_no_fact(card: Option<Json>)
    requires
        !(card matches Some(Json::Object(members)) && members.dom().contains("peer_card"@)
            && members["peer_card"@] is Array),
    ensures
        specialists::card_facts(card) == Seq::<Seq<char>>::empty(),
{
}

/// What is read of a stored card is what the value holds.
pub proof fn law_card_is_read_as_it_is(value: Value)
    ensures
        specialists::card_contents(None) == None::<Json>,
        specialists::card_contents(Some(value)) == Some(json::json_contents(value)),
{
}

} // verus!
