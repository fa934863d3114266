//! The prompt with which the deriver extracts explicit facts from messages.
//!
//! Everything up to the custom instructions is the same for every peer, so that
//! providers can cache the prefix: the peer id stands behind it only, under
//! `Target peer:`.

use vstd::prelude::*;

use crate::text::{self, cleandoc, trim};

verus! {

/// The part of the prompt that is the same for every peer.
pub const PREAMBLE: &'static str = r#"Analyze messages to extract **explicit atomic facts** about the target peer.

[EXPLICIT] DEFINITION: Facts about the target peer that can be derived directly from their messages.
   - Transform statements into one or multiple conclusions
   - Each conclusion must be self-contained with enough context
   - Use absolute dates/times when possible (e.g. "June 26, 2025" not "yesterday")

RULES:
- The target peer is the peer identified below under `Target peer:`.
- A peer can be a human user, AI agent, bot, service, or other actor.
- Use the exact peer id from `Target peer:` in final observations, not the phrase "the target peer".
- Properly attribute observations to the correct subject: if it is about the target peer, use the exact peer id as the subject. If the target peer is referencing someone or something else, make that clear.
- Observations should make sense on their own. Each observation will be used in the future to better understand the target peer.
- Extract ALL observations from the target peer's messages, using others as context.
- Contextualize each observation sufficiently (e.g. "Ann is nervous about the job interview at the pharmacy" not just "Ann is nervous")

EXAMPLES (using `alice` as the target peer id):
- EXPLICIT: "I just had my 25th birthday last Saturday" → "alice is 25 years old", "alice's birthday is June 21st"
- EXPLICIT: "I took my dog for a walk in NYC" → "alice has a dog", "alice lives in NYC"
- EXPLICIT: "alice attended college" + general knowledge → "alice completed high school or equivalent"

"#;

/// What stands before the instructions in the indented block that holds them.
pub const INSTRUCTIONS_HEAD: &'static str = "\n        CUSTOM INSTRUCTIONS:\n        These instructions apply to the target peer identified below.\n        ";

/// What stands after the instructions in the indented block that holds them.
pub const INSTRUCTIONS_TAIL: &'static str = "\n        ";

/// The view of an optional text.
pub open spec fn text_of(text: Option<&str>) -> Option<Seq<char>> {
    match text {
        None => None,
        Some(s) => Some(s@),
    }
}

/// Custom instructions without the whitespace around them; `None` when they are
/// absent or blank.
pub open spec fn normalized(instructions: Option<Seq<char>>) -> Option<Seq<char>> {
    match instructions {
        None => None,
        Some(text) => if text::trimmed(text).len() == 0 {
            None
        } else {
            Some(text::trimmed(text))
        },
    }
}

/// The section on custom instructions: empty when there are none.
pub open spec fn instructions_section(instructions: Option<Seq<char>>) -> Seq<char> {
    match normalized(instructions) {
        None => Seq::empty(),
        Some(text) => text::cleaned(INSTRUCTIONS_HEAD@ + text + INSTRUCTIONS_TAIL@),
    }
}

/// What follows the custom instructions: the peer and the messages.
pub open spec fn target_block(peer_id: Seq<char>, messages: Seq<char>) -> Seq<char> {
    "\n\nTarget peer:\n"@ + peer_id + "\n\nMessages to analyze:\n<messages>\n"@ + messages
        + "\n</messages>"@
}

/// The deriver's prompt.
pub open spec fn deriver_prompt(
    peer_id: Seq<char>,
    messages: Seq<char>,
    instructions: Option<Seq<char>>,
) -> Seq<char> {
    PREAMBLE@ + instructions_section(instructions) + target_block(peer_id, messages)
}

/// Custom instructions without the whitespace around them, or `None` when they
/// are absent or blank.
pub fn normalized_custom_instructions(custom_instructions: Option<&str>) -> (normal: Option<String>)
    ensures
        match (normal, normalized(text_of(custom_instructions))) {
            (None, None) => true,
            (Some(text), Some(expected)) => text@ == expected,
            _ => false,
        },
{
    match custom_instructions {
        None => None,
        Some(text) => {
            let inner = trim(text);
            if inner.is_empty() {
                None
            } else {
                Some(inner.to_string())
            }
        },
    }
}

/// The section on custom instructions: empty when there are none.
pub fn custom_instructions_section(custom_instructions: Option<&str>) -> (section: String)
    ensures
        section@ == instructions_section(text_of(custom_instructions)),
{
    match normalized_custom_instructions(custom_instructions) {
        None => String::new(),
        Some(text) => {
            let mut block = INSTRUCTIONS_HEAD.to_string();
            block.append(text.as_str());
            block.append(INSTRUCTIONS_TAIL);
            cleandoc(block.as_str())
        },
    }
}

/// The minimal prompt for the extraction of observations about `peer_id` from
/// `messages`.
pub fn minimal_deriver_prompt(
    peer_id: &str,
    messages: &str,
    custom_instructions: Option<&str>,
) -> (prompt: String)
    ensures
        prompt@ == deriver_prompt(peer_id@, messages@, text_of(custom_instructions)),
{
    let section = custom_instructions_section(custom_instructions);
    let mut prompt = PREAMBLE.to_string();
    prompt.append(section.as_str());
    prompt.append("\n\nTarget peer:\n");
    prompt.append(peer_id);
    prompt.append("\n\nMessages to analyze:\n<messages>\n");
    prompt.append(messages);
    prompt.append("\n</messages>");
    assert(prompt@ =~= deriver_prompt(peer_id@, messages@, text_of(custom_instructions)));
    prompt
}

/// The text whose tokens are counted for a prompt with the given instructions:
/// the prompt without a peer and without messages.
pub open spec fn estimated_text(instructions: Option<Seq<char>>) -> Seq<char> {
    deriver_prompt(Seq::empty(), Seq::empty(), instructions)
}

/// Whether `tokens` is what a call of `estimate_tokens` on `text` returns.
pub open spec fn is_estimate<F: Fn(&str) -> usize>(
    estimate_tokens: F,
    text: Seq<char>,
    tokens: usize,
) -> bool {
    exists|s: &str| s@ == text && #[trigger] call_ensures(estimate_tokens, (s,), tokens)
}

/// Whether `estimate_tokens` counts `text`: it may be called on it, and each call
/// returns the same count. An estimator of tokens goes by the text alone.
pub open spec fn counts<F: Fn(&str) -> usize>(estimate_tokens: F, text: Seq<char>) -> bool {
    &&& forall|s: &str| s@ == text ==> #[trigger] call_requires(estimate_tokens, (s,))
    &&& forall|one: &str, other: &str, a: usize, b: usize|
        one@ == text && other@ == text && #[trigger] call_ensures(estimate_tokens, (one,), a)
            && #[trigger] call_ensures(estimate_tokens, (other,), b) ==> a == b
}

/// The count that `estimate_tokens` gives `text`.
pub open spec fn token_count<F: Fn(&str) -> usize>(estimate_tokens: F, text: Seq<char>) -> usize {
    choose|tokens: usize| is_estimate(estimate_tokens, text, tokens)
}

/// The tokens of the static prompt, without custom instructions, as
/// `estimate_tokens` counts them.
pub fn estimate_minimal_deriver_prompt_tokens<F: Fn(&str) -> usize>(
    estimate_tokens: F,
) -> (tokens: usize)
    requires
        counts(estimate_tokens, estimated_text(None)),
    ensures
        is_estimate(estimate_tokens, estimated_text(None), tokens),
        tokens == token_count(estimate_tokens, estimated_text(None)),
        exists|s: &str|
            s@ == deriver_prompt(Seq::empty(), Seq::empty(), None) && #[trigger] call_ensures(
                estimate_tokens,
                (s,),
                tokens,
            ),
{
    proof {
        reveal_strlit("");
        assert(""@ =~= Seq::empty());
    }
    let prompt = minimal_deriver_prompt("", "", None);
    let text = prompt.as_str();
    let tokens = estimate_tokens(text);
    assert(is_estimate(estimate_tokens, estimated_text(None), tokens));
    tokens
}

/// The tokens of the prompt with custom instructions, where there are any, as
/// `estimate_tokens` counts them.
pub fn estimate_deriver_prompt_tokens<F: Fn(&str) -> usize>(
    custom_instructions: Option<&str>,
    estimate_tokens: F,
) -> (tokens: usize)
    requires
        counts(estimate_tokens, estimated_text(text_of(custom_instructions))),
    ensures
        is_estimate(estimate_tokens, estimated_text(text_of(custom_instructions)), tokens),
        tokens == token_count(estimate_tokens, estimated_text(text_of(custom_instructions))),
        exists|s: &str|
            s@ == deriver_prompt(Seq::empty(), Seq::empty(), text_of(custom_instructions))
                && #[trigger] call_ensures(estimate_tokens, (s,), tokens),
{
    match normalized_custom_instructions(custom_instructions) {
        None => estimate_minimal_deriver_prompt_tokens(estimate_tokens),
        Some(normal) => {
            proof {
                reveal_strlit("");
                assert(""@ =~= Seq::empty());
            }
            let prompt = minimal_deriver_prompt("", "", Some(normal.as_str()));
            let text = prompt.as_str();
            proof {
                law_normalization_is_idempotent(text_of(custom_instructions));
            }
            let tokens = estimate_tokens(text);
            assert(is_estimate(
                estimate_tokens,
                estimated_text(text_of(custom_instructions)),
                tokens,
            ));
            tokens
        },
    }
}

/// Instructions that were normalized once are not changed by another time.
pub proof fn law_normalization_is_idempotent(instructions: Option<Seq<char>>)
    ensures
        normalized(normalized(instructions)) == normalized(instructions),
{
    if let Some(text) = instructions {
        text::law_trim_is_idempotent(text);
    }
}

} // verus!
