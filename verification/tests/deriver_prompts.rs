//! The deriver's prompt and its token estimates.

use honcho::deriver::prompts::{
    custom_instructions_section, estimate_deriver_prompt_tokens,
    estimate_minimal_deriver_prompt_tokens, minimal_deriver_prompt, normalized_custom_instructions,
};

const GOLDEN_NO_CI: &str = "Analyze messages to extract **explicit atomic facts** about the target peer.\n\n[EXPLICIT] DEFINITION: Facts about the target peer that can be derived directly from their messages.\n   - Transform statements into one or multiple conclusions\n   - Each conclusion must be self-contained with enough context\n   - Use absolute dates/times when possible (e.g. \"June 26, 2025\" not \"yesterday\")\n\nRULES:\n- The target peer is the peer identified below under `Target peer:`.\n- A peer can be a human user, AI agent, bot, service, or other actor.\n- Use the exact peer id from `Target peer:` in final observations, not the phrase \"the target peer\".\n- Properly attribute observations to the correct subject: if it is about the target peer, use the exact peer id as the subject. If the target peer is referencing someone or something else, make that clear.\n- Observations should make sense on their own. Each observation will be used in the future to better understand the target peer.\n- Extract ALL observations from the target peer's messages, using others as context.\n- Contextualize each observation sufficiently (e.g. \"Ann is nervous about the job interview at the pharmacy\" not just \"Ann is nervous\")\n\nEXAMPLES (using `alice` as the target peer id):\n- EXPLICIT: \"I just had my 25th birthday last Saturday\" → \"alice is 25 years old\", \"alice's birthday is June 21st\"\n- EXPLICIT: \"I took my dog for a walk in NYC\" → \"alice has a dog\", \"alice lives in NYC\"\n- EXPLICIT: \"alice attended college\" + general knowledge → \"alice completed high school or equivalent\"\n\n\n\nTarget peer:\nalice\n\nMessages to analyze:\n<messages>\nhello world\n</messages>";

const GOLDEN_CI: &str = "Analyze messages to extract **explicit atomic facts** about the target peer.\n\n[EXPLICIT] DEFINITION: Facts about the target peer that can be derived directly from their messages.\n   - Transform statements into one or multiple conclusions\n   - Each conclusion must be self-contained with enough context\n   - Use absolute dates/times when possible (e.g. \"June 26, 2025\" not \"yesterday\")\n\nRULES:\n- The target peer is the peer identified below under `Target peer:`.\n- A peer can be a human user, AI agent, bot, service, or other actor.\n- Use the exact peer id from `Target peer:` in final observations, not the phrase \"the target peer\".\n- Properly attribute observations to the correct subject: if it is about the target peer, use the exact peer id as the subject. If the target peer is referencing someone or something else, make that clear.\n- Observations should make sense on their own. Each observation will be used in the future to better understand the target peer.\n- Extract ALL observations from the target peer's messages, using others as context.\n- Contextualize each observation sufficiently (e.g. \"Ann is nervous about the job interview at the pharmacy\" not just \"Ann is nervous\")\n\nEXAMPLES (using `alice` as the target peer id):\n- EXPLICIT: \"I just had my 25th birthday last Saturday\" → \"alice is 25 years old\", \"alice's birthday is June 21st\"\n- EXPLICIT: \"I took my dog for a walk in NYC\" → \"alice has a dog\", \"alice lives in NYC\"\n- EXPLICIT: \"alice attended college\" + general knowledge → \"alice completed high school or equivalent\"\n\nCUSTOM INSTRUCTIONS:\nThese instructions apply to the target peer identified below.\nbe terse\n\nTarget peer:\nalice\n\nMessages to analyze:\n<messages>\nhello world\n</messages>";

const GOLDEN_CI_ML: &str = "Analyze messages to extract **explicit atomic facts** about the target peer.\n\n[EXPLICIT] DEFINITION: Facts about the target peer that can be derived directly from their messages.\n   - Transform statements into one or multiple conclusions\n   - Each conclusion must be self-contained with enough context\n   - Use absolute dates/times when possible (e.g. \"June 26, 2025\" not \"yesterday\")\n\nRULES:\n- The target peer is the peer identified below under `Target peer:`.\n- A peer can be a human user, AI agent, bot, service, or other actor.\n- Use the exact peer id from `Target peer:` in final observations, not the phrase \"the target peer\".\n- Properly attribute observations to the correct subject: if it is about the target peer, use the exact peer id as the subject. If the target peer is referencing someone or something else, make that clear.\n- Observations should make sense on their own. Each observation will be used in the future to better understand the target peer.\n- Extract ALL observations from the target peer's messages, using others as context.\n- Contextualize each observation sufficiently (e.g. \"Ann is nervous about the job interview at the pharmacy\" not just \"Ann is nervous\")\n\nEXAMPLES (using `alice` as the target peer id):\n- EXPLICIT: \"I just had my 25th birthday last Saturday\" → \"alice is 25 years old\", \"alice's birthday is June 21st\"\n- EXPLICIT: \"I took my dog for a walk in NYC\" → \"alice has a dog\", \"alice lives in NYC\"\n- EXPLICIT: \"alice attended college\" + general knowledge → \"alice completed high school or equivalent\"\n\n        CUSTOM INSTRUCTIONS:\n        These instructions apply to the target peer identified below.\n        line1\nline2\n        \n\nTarget peer:\nalice\n\nMessages to analyze:\n<messages>\nmsgs\n</messages>";

/// About four characters to a token.
fn estimate_tokens(text: &str) -> usize {
    text.chars().count() / 4
}

#[test]
fn prompt_without_custom_instructions_matches_golden() {
    assert_eq!(
        minimal_deriver_prompt("alice", "hello world", None),
        GOLDEN_NO_CI
    );
}

#[test]
fn prompt_with_custom_instructions_matches_golden() {
    assert_eq!(
        minimal_deriver_prompt("alice", "hello world", Some("  be terse  ")),
        GOLDEN_CI
    );
}

#[test]
fn prompt_with_multiline_custom_instructions_matches_golden() {
    assert_eq!(
        minimal_deriver_prompt("alice", "msgs", Some("line1\nline2")),
        GOLDEN_CI_ML
    );
}

#[test]
fn blank_custom_instructions_render_as_no_section() {
    assert_eq!(
        minimal_deriver_prompt("alice", "hello world", Some("   ")),
        GOLDEN_NO_CI
    );
}

#[test]
fn prefix_is_static_across_peers() {
    let alice = minimal_deriver_prompt("alice", "hi", None);
    let bob = minimal_deriver_prompt("bob", "hi", None);
    let split = "\n\n\n\nTarget peer:\n";
    let alice_prefix = alice.split(split).next().unwrap();
    let bob_prefix = bob.split(split).next().unwrap();
    assert_eq!(alice_prefix, bob_prefix);
    assert!(bob.ends_with("Target peer:\nbob\n\nMessages to analyze:\n<messages>\nhi\n</messages>"));
    assert!(bob_prefix.contains("EXAMPLES (using `alice` as the target peer id):"));
}

#[test]
fn estimate_with_blank_equals_minimal() {
    assert_eq!(
        estimate_deriver_prompt_tokens(Some("   "), estimate_tokens),
        estimate_minimal_deriver_prompt_tokens(estimate_tokens)
    );
    assert_eq!(
        estimate_deriver_prompt_tokens(None, estimate_tokens),
        estimate_minimal_deriver_prompt_tokens(estimate_tokens)
    );
}

#[test]
fn estimate_with_instructions_is_larger() {
    assert!(
        estimate_deriver_prompt_tokens(Some("be very terse and specific"), estimate_tokens)
            > estimate_minimal_deriver_prompt_tokens(estimate_tokens)
    );
}

#[test]
fn estimates_count_the_prompt_without_peer_and_messages() {
    let bytes = |text: &str| text.len();
    assert_eq!(
        estimate_minimal_deriver_prompt_tokens(bytes),
        minimal_deriver_prompt("", "", None).len()
    );
    assert_eq!(
        estimate_deriver_prompt_tokens(Some("\tbe terse\n"), bytes),
        minimal_deriver_prompt("", "", Some("be terse")).len()
    );
    let seen = |text: &str| {
        assert!(text.ends_with("Target peer:\n\n\nMessages to analyze:\n<messages>\n\n</messages>"));
        7
    };
    assert_eq!(estimate_deriver_prompt_tokens(Some("x"), seen), 7);
}

#[test]
fn instructions_are_normalized() {
    assert_eq!(normalized_custom_instructions(None), None);
    assert_eq!(normalized_custom_instructions(Some("")), None);
    assert_eq!(normalized_custom_instructions(Some(" \n\t\u{3000}")), None);
    assert_eq!(
        normalized_custom_instructions(Some(" \n be\tterse \u{a0}")),
        Some("be\tterse".to_string())
    );
}

#[test]
fn normalizing_twice_changes_nothing() {
    let once = normalized_custom_instructions(Some("  a b \n")).unwrap();
    assert_eq!(normalized_custom_instructions(Some(&once)), Some(once));
}

#[test]
fn space_around_instructions_is_ignored() {
    assert_eq!(
        minimal_deriver_prompt("p", "m", Some("\n\n  one\n two \n")),
        minimal_deriver_prompt("p", "m", Some("one\n two"))
    );
}

#[test]
fn one_line_section_has_no_indentation() {
    assert_eq!(
        custom_instructions_section(Some("be terse")),
        "CUSTOM INSTRUCTIONS:\nThese instructions apply to the target peer identified below.\nbe terse"
    );
    assert_eq!(custom_instructions_section(None), "");
    assert_eq!(custom_instructions_section(Some("\u{2003}")), "");
}

#[test]
fn unindented_line_keeps_the_block() {
    assert_eq!(
        custom_instructions_section(Some("a\n\n  b\nc")),
        "        CUSTOM INSTRUCTIONS:\n        These instructions apply to the target peer identified below.\n        a\n\n  b\nc\n        "
    );
}

#[test]
fn partly_indented_lines_lose_what_they_share() {
    assert_eq!(
        custom_instructions_section(Some("a\n   b\n     c")),
        "     CUSTOM INSTRUCTIONS:\n     These instructions apply to the target peer identified below.\n     a\nb\n  c\n     "
    );
    assert_eq!(
        custom_instructions_section(Some("a\n          b")),
        "CUSTOM INSTRUCTIONS:\nThese instructions apply to the target peer identified below.\na\n  b"
    );
    assert_eq!(
        custom_instructions_section(Some("a\n\tb")),
        "CUSTOM INSTRUCTIONS:\nThese instructions apply to the target peer identified below.\na\nb"
    );
}

#[test]
fn tabs_in_instructions_expand_as_if_they_stood_alone() {
    assert_eq!(
        custom_instructions_section(Some("\ta\tb\t")),
        "CUSTOM INSTRUCTIONS:\nThese instructions apply to the target peer identified below.\na       b"
    );
    assert_eq!(
        custom_instructions_section(Some("12345678\tx\nc\td")),
        "        CUSTOM INSTRUCTIONS:\n        These instructions apply to the target peer identified below.\n        12345678        x\nc       d\n        "
    );
}

#[test]
fn estimates_agree_for_equal_instructions() {
    assert_eq!(
        estimate_deriver_prompt_tokens(Some("\n  be terse \t"), estimate_tokens),
        estimate_deriver_prompt_tokens(Some("be terse"), estimate_tokens)
    );
    assert_eq!(
        estimate_deriver_prompt_tokens(Some("be terse"), estimate_tokens),
        estimate_tokens(&minimal_deriver_prompt("", "", Some("be terse")))
    );
}

#[test]
fn instructions_lengthen_the_prompt_by_their_introduction() {
    let plain = minimal_deriver_prompt("", "", None).chars().count();
    let with = minimal_deriver_prompt("", "", Some("x")).chars().count();
    let introduction =
        "CUSTOM INSTRUCTIONS:\nThese instructions apply to the target peer identified below.\n";
    assert_eq!(with, plain + introduction.chars().count() + 1);
    let coarse = |text: &str| text.chars().count() / 80;
    assert!(
        estimate_deriver_prompt_tokens(Some("x"), coarse)
            > estimate_minimal_deriver_prompt_tokens(coarse)
    );
}

#[test]
fn peer_and_messages_stand_as_they_are() {
    let prompt = minimal_deriver_prompt("{peer}\t", " a\n\tb ", Some("x"));
    assert!(prompt.ends_with(
        "\nx\n\nTarget peer:\n{peer}\t\n\nMessages to analyze:\n<messages>\n a\n\tb \n</messages>"
    ));
    assert!(prompt.starts_with("Analyze messages to extract **explicit atomic facts**"));
}
