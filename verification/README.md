# honcho

Prompts and run decisions of the memory agents, written and verified in Verus.

- `src/text.rs`: trimming, lines, and the clean-up of indented blocks. It assumes
  that `String::push` puts a character at the end.
- `src/json.rs`: what JSON values hold, and what is assumed of `serde_json`.
- `src/deriver/`: the prompt with which the deriver extracts explicit facts from
  messages, and the text whose tokens are estimated.
- `src/dreamer/specialists.rs`: the deduction and induction specialists, with
  their prompts, tools and limits.
- `src/dreamer/run.rs`: one run of a specialist, as the decisions between the calls
  that it makes.
- `laws.rs` in both: what holds of the functions together.
- `app/`: the loop that performs the calls of a run.

The texts of the prompts are constants; contracts say how they are put together.
