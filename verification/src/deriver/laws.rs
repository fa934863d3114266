//! What holds of the deriver's prompt as a whole.

use vstd::prelude::*;

use crate::deriver::prompts::{self, INSTRUCTIONS_HEAD, INSTRUCTIONS_TAIL, PREAMBLE};
use crate::text;

verus! {

/// The indentation of the block that holds the instructions.
pub open spec fn pad() -> Seq<char> {
    "        "@
}

/// The first line of the section on instructions.
pub open spec fn heading() -> Seq<char> {
    "CUSTOM INSTRUCTIONS:"@
}

/// The second line of the section on instructions.
pub open spec fn scope_note() -> Seq<char> {
    "These instructions apply to the target peer identified below."@
}

/// Everything before the peer is the same for every peer and all messages, and
/// what stands before the custom instructions is the same for all of them, too.
pub proof fn law_prefix_is_the_same_for_every_peer(
    peer_id: Seq<char>,
    messages: Seq<char>,
    instructions: Option<Seq<char>>,
)
    ensures
        PREAMBLE@.is_prefix_of(
            prompts::deriver_prompt(peer_id, messages, instructions),
        ),
        (PREAMBLE@ + prompts::instructions_section(instructions)
            + "\n\nTarget peer:\n"@).is_prefix_of(
            prompts::deriver_prompt(peer_id, messages, instructions),
        ),
{
    let prompt = prompts::deriver_prompt(peer_id, messages, instructions);
    let prefix = PREAMBLE@ + prompts::instructions_section(instructions)
        + "\n\nTarget peer:\n"@;
    assert(PREAMBLE@ =~= prompt.take(PREAMBLE@.len() as int));
    assert(prefix =~= prompt.take(prefix.len() as int));
}

/// The prompt ends with the peer and the messages.
pub proof fn law_prompt_ends_with_peer_and_messages(
    peer_id: Seq<char>,
    messages: Seq<char>,
    instructions: Option<Seq<char>>,
)
    ensures
        ("Target peer:\n"@ + peer_id + "\n\nMessages to analyze:\n<messages>\n"@ + messages
            + "\n</messages>"@).is_suffix_of(
            prompts::deriver_prompt(peer_id, messages, instructions),
        ),
{
    let prompt = prompts::deriver_prompt(peer_id, messages, instructions);
    let suffix = "Target peer:\n"@ + peer_id + "\n\nMessages to analyze:\n<messages>\n"@ + messages
        + "\n</messages>"@;
    reveal_strlit("\n\nTarget peer:\n");
    reveal_strlit("Target peer:\n");
    assert("\n\nTarget peer:\n"@ =~= seq!['\n', '\n'] + "Target peer:\n"@);
    assert(suffix =~= prompt.subrange(prompt.len() - suffix.len(), prompt.len() as int));
}

/// Blank instructions are no instructions.
pub proof fn law_blank_instructions_are_none(
    peer_id: Seq<char>,
    messages: Seq<char>,
    instructions: Seq<char>,
)
    requires
        text::is_blank(instructions),
    ensures
        prompts::deriver_prompt(peer_id, messages, Some(instructions))
            == prompts::deriver_prompt(peer_id, messages, None),
        prompts::estimated_text(Some(instructions))
            == prompts::estimated_text(None),
{
    text::law_trimmed_ends(instructions);
}

/// Whitespace around the instructions has no effect.
pub proof fn law_space_around_instructions_is_ignored(
    peer_id: Seq<char>,
    messages: Seq<char>,
    instructions: Seq<char>,
)
    ensures
        prompts::deriver_prompt(peer_id, messages, Some(instructions))
            == prompts::deriver_prompt(
            peer_id,
            messages,
            Some(text::trimmed(instructions)),
        ),
{
    text::law_trim_is_idempotent(instructions);
}

/// The block around the instructions, line by line.
proof fn lemma_block()
    ensures
        INSTRUCTIONS_HEAD@ == seq!['\n'] + (pad() + heading()) + seq!['\n'] + (pad()
            + scope_note()) + seq!['\n'] + pad(),
        INSTRUCTIONS_TAIL@ == seq!['\n'] + pad(),
        pad() == text::spaces(8),
        heading().len() == 20,
        !text::is_space(heading()[0]),
        !text::is_space(scope_note()[0]),
        !INSTRUCTIONS_HEAD@.contains('\t'),
        !INSTRUCTIONS_TAIL@.contains('\t'),
        !heading().contains('\n'),
        !scope_note().contains('\n'),
        scope_note().len() > 0,
{
    reveal_strlit(
        "\n        CUSTOM INSTRUCTIONS:\n        These instructions apply to the target peer identified below.\n        ",
    );
    reveal_strlit("\n        ");
    reveal_strlit("        ");
    reveal_strlit("CUSTOM INSTRUCTIONS:");
    reveal_strlit("These instructions apply to the target peer identified below.");
    assert(INSTRUCTIONS_HEAD@ =~= seq!['\n'] + (pad() + heading()) + seq!['\n'] + (pad()
        + scope_note()) + seq!['\n'] + pad());
    assert(INSTRUCTIONS_TAIL@ =~= seq!['\n'] + pad());
    assert(pad() =~= text::spaces(8));
}

/// The block around the instructions ends at a tab stop where they start, so the
/// tabs in them expand as if they stood alone.
proof fn lemma_block_expanded(text: Seq<char>)
    ensures
        text::tabs_expanded(INSTRUCTIONS_HEAD@ + text + INSTRUCTIONS_TAIL@) == INSTRUCTIONS_HEAD@
            + text::tabs_expanded(text) + INSTRUCTIONS_TAIL@,
{
    lemma_block();
    let before = seq!['\n'] + (pad() + heading()) + seq!['\n'] + (pad() + scope_note()) + seq!['\n'];
    assert(before.last() == '\n');
    text::lemma_column_after_spaces(before, 8);
    text::lemma_tabs_expanded_at_stop(INSTRUCTIONS_HEAD@, text);
    text::lemma_no_tabs(INSTRUCTIONS_HEAD@);
    text::lemma_tabs_expanded_before(INSTRUCTIONS_HEAD@ + text, INSTRUCTIONS_TAIL@);
}

/// The lines of the block that holds `text`.
proof fn lemma_block_lines(text: Seq<char>)
    ensures
        ({
            let block = INSTRUCTIONS_HEAD@ + text + INSTRUCTIONS_TAIL@;
            let inner = (pad() + heading()) + seq!['\n'] + (pad() + scope_note()) + seq!['\n'] + (
            pad() + text) + seq!['\n'] + pad();
            &&& block == seq!['\n'] + inner
            &&& text::lines_of(inner) == seq![pad() + heading(), pad() + scope_note()]
                + text::lines_of(pad() + text) + seq![pad()]
            &&& text::lines_of(seq!['\n'] + inner) == seq![Seq::empty()]
                + text::lines_of(inner)
        }),
{
    lemma_block();
    let block = INSTRUCTIONS_HEAD@ + text + INSTRUCTIONS_TAIL@;
    let one = pad() + heading();
    let two = pad() + scope_note();
    let three = pad() + text;
    let inner = one + seq!['\n'] + two + seq!['\n'] + three + seq!['\n'] + pad();
    assert(block =~= seq!['\n'] + inner);
    assert forall|i: int| 0 <= i < one.len() implies one[i] != '\n' by {
        if i >= 8 {
            assert(one[i] == heading()[i - 8]);
        }
    }
    assert forall|i: int| 0 <= i < two.len() implies two[i] != '\n' by {
        if i >= 8 {
            assert(two[i] == scope_note()[i - 8]);
        }
    }
    text::lemma_one_line(one);
    text::lemma_one_line(two);
    text::lemma_one_line(pad());
    let after_two = three + seq!['\n'] + pad();
    let after_one = two + seq!['\n'] + after_two;
    text::lemma_lines_concat(three, pad());
    text::lemma_lines_concat(two, after_two);
    text::lemma_lines_concat(one, after_one);
    assert(inner =~= one + seq!['\n'] + after_one);
    assert(text::lines_of(inner) =~= seq![one, two] + text::lines_of(three) + seq![
        pad(),
    ]);
    text::lemma_lines_concat(Seq::empty(), inner);
    assert(Seq::<char>::empty() + seq!['\n'] + inner =~= seq!['\n'] + inner);
}

/// An indented text that does not start with whitespace has the indentation of
/// its pad, and is not blank.
proof fn lemma_padded_indent(text: Seq<char>)
    requires
        text.len() > 0,
        !text::is_space(text[0]),
    ensures
        text::indent_of(pad() + text) == 8,
        !text::is_blank(pad() + text),
{
    lemma_block();
    let line = pad() + text;
    assert(line[8] == text[0]);
    text::lemma_indent(line, 8);
}

/// What the lines of the instructions lose of their indentation: what those after
/// the first share, but no more than the indentation of the block.
pub open spec fn cut_margin(lines: Seq<Seq<char>>) -> nat {
    match text::margin_of(lines.skip(1)) {
        Some(margin) if margin < 8 => margin,
        _ => 8,
    }
}

/// The lines of the section on instructions, for instructions with these lines.
/// What is left of the block's indentation stands before the two lines that
/// introduce the instructions, before their first line, and, if it is not empty,
/// on a line of its own behind them.
pub open spec fn section_lines(lines: Seq<Seq<char>>) -> Seq<Seq<char>> {
    let margin = cut_margin(lines);
    let left = text::spaces((8 - margin) as nat);
    seq![left + heading(), left + scope_note(), left + lines[0]] + lines.skip(1).map_values(
        |line: Seq<char>| text::unindented(line, Some(margin)),
    ) + (if margin < 8 {
        seq![left]
    } else {
        Seq::empty()
    })
}

/// What is left of a padded line when `margin` characters of its pad are cut.
proof fn lemma_padded_cut(line: Seq<char>, margin: nat)
    requires
        margin <= 8,
        margin < 8 || line.len() > 0,
    ensures
        text::unindented(pad() + line, Some(margin)) == text::spaces((8 - margin) as nat) + line,
{
    lemma_block();
    assert((pad() + line).skip(margin as int) =~= text::spaces((8 - margin) as nat) + line);
}

/// The instructions as the section shows them: without the whitespace around them,
/// and with spaces for tabs.
pub open spec fn shown(instructions: Seq<char>) -> Seq<char> {
    text::tabs_expanded(text::trimmed(instructions))
}

/// Instructions that are not blank show something, and show no whitespace at
/// either end.
proof fn lemma_shown(instructions: Seq<char>)
    requires
        !text::is_blank(instructions),
    ensures
        shown(instructions).len() > 0,
        !text::is_space(shown(instructions)[0]),
        !text::is_space(shown(instructions).last()),
{
    text::law_trimmed_ends(instructions);
    text::lemma_tabs_expanded_ends(text::trimmed(instructions));
}

/// The section on instructions, line by line.
#[verifier::rlimit(40)]
pub proof fn law_section_line_by_line(instructions: Seq<char>)
    requires
        !text::is_blank(instructions),
    ensures
        prompts::instructions_section(Some(instructions)) == text::joined(
            section_lines(text::lines_of(shown(instructions))),
            seq!['\n'],
        ),
{
    text::law_trimmed_ends(instructions);
    lemma_shown(instructions);
    lemma_block_expanded(text::trimmed(instructions));
    let inner = shown(instructions);
    let own = text::lines_of(inner);
    let margin = cut_margin(own);
    lemma_block();
    lemma_block_lines(inner);
    text::lemma_lines_prefixed(pad(), inner);
    text::lemma_outer_lines(inner);
    let lines = text::lines_of(INSTRUCTIONS_HEAD@ + inner + INSTRUCTIONS_TAIL@);
    let top = seq![pad() + heading(), pad() + scope_note(), pad() + own[0]];
    let later = own.skip(1);
    assert(lines =~= seq![Seq::empty()] + top + later + seq![pad()]);
    assert(lines.skip(1) =~= top + later + seq![pad()]);

    lemma_padded_indent(heading());
    lemma_padded_indent(scope_note());
    lemma_padded_indent(own[0]);
    assert(text::margin_of(top) == Some(8nat)) by {
        assert(top.drop_last() =~= seq![pad() + heading(), pad() + scope_note()]);
        assert(top.drop_last().drop_last() =~= seq![pad() + heading()]);
        reveal_with_fuel(text::margin_of, 4);
    }
    assert(text::margin_of(seq![pad()]) is None) by {
        assert(text::is_blank(pad()));
        assert(seq![pad()].drop_last() =~= Seq::empty());
        reveal_with_fuel(text::margin_of, 2);
    }
    text::lemma_margin_concat(top, later);
    text::lemma_margin_concat(top + later, seq![pad()]);
    assert(text::margin_of(lines.skip(1)) == Some(margin));

    lemma_padded_cut(heading(), margin);
    lemma_padded_cut(scope_note(), margin);
    lemma_padded_cut(own[0], margin);
    let left = text::spaces((8 - margin) as nat);
    let cut = later.map_values(|line: Seq<char>| text::unindented(line, Some(margin)));
    let start = seq![left + heading(), left + scope_note(), left + own[0]];
    let clean = text::dedented(lines);
    assert(text::unindented(pad(), Some(margin)) =~= left);
    assert(text::trimmed_start(Seq::<char>::empty()) =~= Seq::empty());
    assert(clean =~= seq![Seq::empty()] + start + cut + seq![left]) by {
        assert forall|i: int| 4 <= i < 4 + later.len() implies clean[i] == cut[i - 4] by {
            assert(lines[i] == later[i - 4]);
        }
    }
    let n = clean.len() as int;
    if margin < 8 {
        text::lemma_without_trailing_empty(clean, n);
        assert(clean.take(n) =~= clean);
        text::lemma_without_leading_empty(clean, 1);
        assert(clean.skip(1) =~= section_lines(own));
    } else {
        if later.len() > 0 {
            let last = own.last();
            assert(later.last() == last);
            text::lemma_indent_prefix(last);
            assert(!text::is_blank(last));
            assert(clean[n - 2] == cut.last());
        } else {
            assert(clean[n - 2] == left + own[0]);
        }
        text::lemma_without_trailing_empty(clean, n - 1);
        text::lemma_without_leading_empty(clean.take(n - 1), 1);
        assert(clean.take(n - 1).skip(1) =~= section_lines(own));
    }
}

/// Instructions on one line stand under the two lines that introduce them, without
/// indentation.
pub proof fn law_one_line_of_instructions(instructions: Seq<char>)
    requires
        !text::is_blank(instructions),
        !text::trimmed(instructions).contains('\n'),
    ensures
        prompts::instructions_section(Some(instructions)) == heading() + seq!['\n']
            + scope_note() + seq!['\n'] + shown(instructions),
{
    law_section_line_by_line(instructions);
    text::lemma_tabs_expanded_ends(text::trimmed(instructions));
    let inner = shown(instructions);
    text::lemma_one_line(inner);
    let own = text::lines_of(inner);
    assert(own.skip(1) =~= Seq::empty());
    let kept = seq![heading(), scope_note(), inner];
    assert(section_lines(own) =~= kept) by {
        let left = text::spaces(0);
        assert(left + heading() =~= heading());
        assert(left + scope_note() =~= scope_note());
        assert(left + inner =~= inner);
    }
    assert(kept.drop_last() =~= seq![heading(), scope_note()]);
    assert(kept.drop_last().drop_last() =~= seq![heading()]);
    reveal_with_fuel(text::joined, 4);
}

/// Instructions of several lines, one of which after the first is not indented,
/// stand in their block as it is: no margin is shared, so none is cut.
pub proof fn law_unindented_line_keeps_the_block(instructions: Seq<char>, at: int)
    requires
        !text::is_blank(instructions),
        1 <= at < text::lines_of(shown(instructions)).len(),
        text::lines_of(shown(instructions))[at].len() > 0,
        !text::is_space(text::lines_of(shown(instructions))[at][0]),
    ensures
        prompts::instructions_section(Some(instructions)) == pad() + heading()
            + seq!['\n'] + pad() + scope_note() + seq!['\n'] + pad() + shown(instructions)
            + seq!['\n'] + pad(),
{
    law_section_line_by_line(instructions);
    lemma_block();
    let inner = shown(instructions);
    let own = text::lines_of(inner);
    let later = own.skip(1);
    text::lemma_indent(own[at], 0);
    assert(later[at - 1] == own[at]);
    assert(!text::is_blank(own[at]));
    text::lemma_margin_bound(later, at - 1);
    let cut = later.map_values(|line: Seq<char>| text::unindented(line, Some(0nat)));
    assert(cut =~= later) by {
        assert forall|i: int| 0 <= i < later.len() implies #[trigger] cut[i] == later[i] by {
            assert(text::unindented(later[i], Some(0nat)) =~= later[i]);
        }
    }
    let block = (pad() + heading()) + seq!['\n'] + (pad() + scope_note()) + seq!['\n'] + (pad()
        + inner) + seq!['\n'] + pad();
    lemma_block_lines(inner);
    text::lemma_lines_prefixed(pad(), inner);
    assert(section_lines(own) =~= text::lines_of(block));
    text::law_joined_lines_are_the_text(block);
    assert(block =~= pad() + heading() + seq!['\n'] + pad() + scope_note() + seq!['\n'] + pad()
        + inner + seq!['\n'] + pad());
}

/// By how much instructions lengthen the prompt at least, beside themselves: by
/// the two lines that introduce them.
pub open spec fn least_growth() -> nat {
    heading().len() + scope_note().len() + 2
}

/// A prompt with instructions is longer than one without, by more than the lines
/// that introduce them.
pub proof fn law_instructions_lengthen_the_prompt(
    peer_id: Seq<char>,
    messages: Seq<char>,
    instructions: Seq<char>,
)
    requires
        !text::is_blank(instructions),
    ensures
        prompts::deriver_prompt(peer_id, messages, Some(instructions)).len()
            > prompts::deriver_prompt(peer_id, messages, None).len() + least_growth(),
        prompts::estimated_text(Some(instructions)).len() > prompts::estimated_text(None).len()
            + least_growth(),
{
    text::law_trimmed_ends(instructions);
    law_section_line_by_line(instructions);
    lemma_shown(instructions);
    text::lemma_outer_lines(shown(instructions));
    let own = text::lines_of(shown(instructions));
    assert(own[0].len() > 0);
    let lines = section_lines(own);
    let top = lines.take(3);
    assert(top.drop_last() =~= seq![lines[0], lines[1]]);
    assert(top.drop_last().drop_last() =~= seq![lines[0]]);
    reveal_with_fuel(text::joined, 4);
    assert(text::joined(top, seq!['\n']).len() > least_growth());
    text::lemma_joined_grows(lines, seq!['\n'], 3);
}

/// Whether an estimator gives more tokens to a text that is longer by more than
/// `growth` characters.
pub open spec fn grows_with_text<F: Fn(&str) -> usize>(estimate_tokens: F, growth: nat) -> bool {
    forall|one: &str, other: &str, a: usize, b: usize|
        other@.len() > one@.len() + growth && #[trigger] call_ensures(estimate_tokens, (one,), a)
            && #[trigger] call_ensures(estimate_tokens, (other,), b) ==> a < b
}

/// With instructions the estimate is larger than without, for an estimator that
/// gives more tokens to a text longer by more than the lines that introduce them.
pub proof fn law_instructions_cost_tokens<F: Fn(&str) -> usize>(
    estimate_tokens: F,
    instructions: Seq<char>,
    with: usize,
    without: usize,
)
    requires
        !text::is_blank(instructions),
        grows_with_text(estimate_tokens, least_growth()),
        prompts::is_estimate(estimate_tokens, prompts::estimated_text(Some(instructions)), with),
        prompts::is_estimate(estimate_tokens, prompts::estimated_text(None), without),
    ensures
        with > without,
{
    law_instructions_lengthen_the_prompt(Seq::empty(), Seq::empty(), instructions);
}

/// The estimate is what the estimator returns on the prompt without a peer and
/// without messages.
pub proof fn law_estimate_is_that_of_the_prompt<F: Fn(&str) -> usize>(
    estimate_tokens: F,
    instructions: Option<Seq<char>>,
    prompt: &str,
    tokens: usize,
)
    requires
        prompts::counts(estimate_tokens, prompts::estimated_text(instructions)),
        prompt@ == prompts::deriver_prompt(Seq::empty(), Seq::empty(), instructions),
        call_ensures(estimate_tokens, (prompt,), tokens),
    ensures
        tokens == prompts::token_count(estimate_tokens, prompts::estimated_text(instructions)),
{
    assert(prompts::is_estimate(estimate_tokens, prompts::estimated_text(instructions), tokens));
}

/// What is counted, and so what the estimate can be, depends on the normalized
/// instructions alone, whatever the estimator.
pub proof fn law_estimate_depends_on_normalized_instructions<F: Fn(&str) -> usize>(
    estimate_tokens: F,
    one: Option<Seq<char>>,
    other: Option<Seq<char>>,
)
    requires
        prompts::normalized(one) == prompts::normalized(other),
    ensures
        prompts::estimated_text(one) == prompts::estimated_text(other),
        prompts::token_count(estimate_tokens, prompts::estimated_text(one))
            == prompts::token_count(estimate_tokens, prompts::estimated_text(other)),
        forall|tokens: usize| #[trigger]
            prompts::is_estimate(estimate_tokens, prompts::estimated_text(one), tokens)
                <==> prompts::is_estimate(estimate_tokens, prompts::estimated_text(other), tokens),
{
}

/// Instructions cost what they cost without the whitespace around them, and blank
/// ones cost nothing over the static prompt, whatever the estimator.
pub proof fn law_space_costs_nothing<F: Fn(&str) -> usize>(
    estimate_tokens: F,
    instructions: Seq<char>,
)
    ensures
        prompts::token_count(estimate_tokens, prompts::estimated_text(Some(instructions)))
            == prompts::token_count(
            estimate_tokens,
            prompts::estimated_text(Some(text::trimmed(instructions))),
        ),
        text::is_blank(instructions) ==> prompts::token_count(
            estimate_tokens,
            prompts::estimated_text(Some(instructions)),
        ) == prompts::token_count(estimate_tokens, prompts::estimated_text(None)),
{
    text::law_trim_is_idempotent(instructions);
    text::law_trimmed_ends(instructions);
}

/// Two estimates agree when the instructions differ in the whitespace around them
/// only, or are absent or blank both times.
pub proof fn law_estimates_agree<F: Fn(&str) -> usize>(
    estimate_tokens: F,
    one: Option<Seq<char>>,
    other: Option<Seq<char>>,
    first: usize,
    second: usize,
)
    requires
        prompts::normalized(one) == prompts::normalized(other),
        prompts::counts(estimate_tokens, prompts::estimated_text(one)),
        prompts::is_estimate(estimate_tokens, prompts::estimated_text(one), first),
        prompts::is_estimate(estimate_tokens, prompts::estimated_text(other), second),
    ensures
        first == second,
{
}

/// The prompt in full: what is the same for every peer, the section on
/// instructions, and the peer and the messages, each whole.
pub proof fn law_prompt_in_full(
    peer_id: Seq<char>,
    messages: Seq<char>,
    instructions: Option<Seq<char>>,
)
    ensures
        prompts::deriver_prompt(peer_id, messages, instructions) == PREAMBLE@
            + prompts::instructions_section(instructions) + "\n\nTarget peer:\n"@ + peer_id
            + "\n\nMessages to analyze:\n<messages>\n"@ + messages + "\n</messages>"@,
        prompts::estimated_text(instructions) == PREAMBLE@ + prompts::instructions_section(
            instructions,
        ) + "\n\nTarget peer:\n"@ + "\n\nMessages to analyze:\n<messages>\n"@ + "\n</messages>"@,
{
    let none = Seq::<char>::empty();
    assert(prompts::deriver_prompt(peer_id, messages, instructions) =~= PREAMBLE@
        + prompts::instructions_section(instructions) + "\n\nTarget peer:\n"@ + peer_id
        + "\n\nMessages to analyze:\n<messages>\n"@ + messages + "\n</messages>"@);
    assert(prompts::deriver_prompt(none, none, instructions) =~= PREAMBLE@
        + prompts::instructions_section(instructions) + "\n\nTarget peer:\n"@
        + "\n\nMessages to analyze:\n<messages>\n"@ + "\n</messages>"@);
}

/// The view of an optional text is that of the text.
pub proof fn law_view_of_optional_text(given: &str)
    ensures
        prompts::text_of(Some(given)) == Some(given@),
        prompts::text_of(None) == None::<Seq<char>>,
{
}

/// Without instructions, and with instructions of nothing but whitespace, there is
/// no section.
pub proof fn law_no_instructions_no_section(instructions: Seq<char>)
    ensures
        prompts::normalized(None) == None::<Seq<char>>,
        prompts::instructions_section(None) == Seq::<char>::empty(),
        (forall|i: int|
            0 <= i < instructions.len() ==> text::is_space(#[trigger] instructions[i])) ==> {
            &&& prompts::normalized(Some(instructions)) == None::<Seq<char>>
            &&& prompts::instructions_section(Some(instructions)) == Seq::<char>::empty()
        },
{
    text::law_trimming_removes_only_whitespace(instructions);
}

/// Instructions from `a` to `b`, with nothing but whitespace around them, are
/// normalized to just that stretch, and it stands whole in the block that is
/// cleaned up.
pub proof fn law_instructions_are_taken_whole(instructions: Seq<char>, a: int, b: int)
    requires
        0 <= a < b <= instructions.len(),
        !text::is_space(instructions[a]),
        !text::is_space(instructions[b - 1]),
        forall|i: int| 0 <= i < a ==> text::is_space(#[trigger] instructions[i]),
        forall|i: int|
            b <= i < instructions.len() ==> text::is_space(#[trigger] instructions[i]),
    ensures
        prompts::normalized(Some(instructions)) == Some(instructions.subrange(a, b)),
        prompts::instructions_section(Some(instructions)) == text::cleaned(
            "\n        CUSTOM INSTRUCTIONS:\n        These instructions apply to the target peer identified below.\n        "@
                + instructions.subrange(a, b) + "\n        "@,
        ),
{
    text::law_trimmed_is_the_inside(instructions, a, b);
}

/// Instructions from `a` to `b`, on one line, without tabs and with nothing but
/// whitespace around them, stand with all their characters under the two lines
/// that introduce them.
pub proof fn law_one_line_stands_whole(instructions: Seq<char>, a: int, b: int)
    requires
        0 <= a < b <= instructions.len(),
        !text::is_space(instructions[a]),
        !text::is_space(instructions[b - 1]),
        forall|i: int| 0 <= i < a ==> text::is_space(#[trigger] instructions[i]),
        forall|i: int|
            b <= i < instructions.len() ==> text::is_space(#[trigger] instructions[i]),
        forall|i: int|
            a <= i < b ==> #[trigger] instructions[i] != '\t' && instructions[i] != '\n',
    ensures
        prompts::instructions_section(Some(instructions)) == "CUSTOM INSTRUCTIONS:"@ + seq!['\n']
            + "These instructions apply to the target peer identified below."@ + seq!['\n']
            + instructions.subrange(a, b),
{
    text::law_trimmed_is_the_inside(instructions, a, b);
    let inner = instructions.subrange(a, b);
    assert forall|i: int| 0 <= i < inner.len() implies inner[i] != '\t' && inner[i] != '\n' by {
        assert(inner[i] == instructions[a + i]);
    }
    text::lemma_no_tabs(inner);
    law_one_line_of_instructions(instructions);
}

/// Instructions from `a` to `b`, without tabs and with nothing but whitespace
/// around them, of which a line after the first is not indented, stand with all
/// their characters in the block as it is.
pub proof fn law_several_lines_stand_whole(instructions: Seq<char>, a: int, b: int, at: int)
    requires
        0 <= a < b <= instructions.len(),
        !text::is_space(instructions[a]),
        !text::is_space(instructions[b - 1]),
        forall|i: int| 0 <= i < a ==> text::is_space(#[trigger] instructions[i]),
        forall|i: int|
            b <= i < instructions.len() ==> text::is_space(#[trigger] instructions[i]),
        forall|i: int| a <= i < b ==> #[trigger] instructions[i] != '\t',
        1 <= at < text::lines_of(instructions.subrange(a, b)).len(),
        text::lines_of(instructions.subrange(a, b))[at].len() > 0,
        !text::is_space(text::lines_of(instructions.subrange(a, b))[at][0]),
    ensures
        prompts::instructions_section(Some(instructions)) == "        "@ + "CUSTOM INSTRUCTIONS:"@
            + seq!['\n'] + "        "@
            + "These instructions apply to the target peer identified below."@ + seq!['\n']
            + "        "@ + instructions.subrange(a, b) + seq!['\n'] + "        "@,
{
    text::law_trimmed_is_the_inside(instructions, a, b);
    let inner = instructions.subrange(a, b);
    assert forall|i: int| 0 <= i < inner.len() implies inner[i] != '\t' by {
        assert(inner[i] == instructions[a + i]);
    }
    text::lemma_no_tabs(inner);
    law_unindented_line_keeps_the_block(instructions, at);
}

} // verus!
