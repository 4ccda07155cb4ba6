//! The conversation context: its event log, system prompt, token usage and
//! the rule that decides when the conversation must be compacted.

use vstd::prelude::*;

use crate::models::Model;
use crate::parser::{AgentEventItem, EffortLevel, Usage};
use crate::text::chars_of;

verus! {

/// The instructions every conversation starts from.
pub const SYSTEM_PROMPT: &'static str = "You are a mimi, a coding agent harness built by [Yogesh](x.com/@yogesharc): precise, safe, helpful. Be concise, direct, and friendly. Prefer actionable guidance over long explanations.

# Work style

- Before tool calls, send a brief 1–2 sentence preamble grouping related actions; skip it for trivial single reads.
- Keep going until the query is fully resolved. Do not guess.
- For complex/multi-step/ambiguous work, use a concise plan of non-obvious steps using create_todo_list tool. Mark the todo compelete after each item is done. Delete todo file after all tasks on it are complete.
- Skip plans for simple tasks.
- On longer tasks, give short progress updates (≈8–10 words) before large edits.

# Coding

- Fix root causes; keep changes minimal and consistent with existing style.
- Do not fix unrelated bugs/tests (mention them if useful).
- Do not commit, branch, add license headers, or add inline comments unless asked.
- Do not re-read files after a successful edit.
- In existing codebases: surgical precision. For greenfield work: be more ambitious.
- Verify with tests/builds when available; format narrowly; do not add formatters or tests where none exist.

# Final answers

- Default to brevity (≤10 lines) unless detail is needed. Sound like a concise teammate.
- Don’t dump large file contents; reference paths. Suggest logical next steps briefly when useful.

For substantive results: short `**Headers**`, `- **Keyword**: detail` bullets, backticks for paths/commands. Skip structure for casual/simple replies.
";

/// The estimated number of tokens in a text: one per four characters, rounded up.
pub open spec fn token_estimate(s: Seq<char>) -> nat {
    ((s.len() + 3) / 4) as nat
}

/// The system prompt: the built-in instructions, followed by a newline and the
/// project's `AGENTS.md` when there is one.
pub open spec fn system_prompt_text(agents_md: Option<Seq<char>>) -> Seq<char> {
    match agents_md {
        Some(v) => SYSTEM_PROMPT@ + "\n"@ + v,
        None => SYSTEM_PROMPT@,
    }
}

/// Why token accounting failed: a count that does not fit in 64 bits.
#[derive(Debug, Clone, Copy, PartialEq, Eq, Structural)]
pub enum ContextError {
    TokenCountOverflow,
}

/// The state of one conversation.
pub struct Context<'a> {
    pub event_logs: Vec<AgentEventItem>,
    pub system_prompt: Option<String>,
    pub usage: Usage,
    pub compact_threshold_percentage: u64,
    pub model: &'a Model,
    pub effort: Option<EffortLevel>,
}

impl<'a> Context<'a> {
    /// A fresh conversation with `model`: no events, no prompt, no usage, and
    /// compaction once usage passes 10% of the context window.
    pub fn new(model: &'a Model) -> (c: Self)
        ensures
            c.event_logs@.len() == 0,
            c.system_prompt is None,
            c.usage == (Usage { input_tokens: 0, output_tokens: 0, total_tokens: 0 }),
            c.compact_threshold_percentage == 10,
            c.model == model,
            c.effort is None,
    {
        Context {
            event_logs: Vec::new(),
            system_prompt: None,
            usage: Usage::default(),
            compact_threshold_percentage: 10,
            model,
            effort: None,
        }
    }

    /// The estimated number of tokens in `text`.
    pub fn estimate_token_usage(text: &str) -> (r: Result<u64, ContextError>)
        ensures
            token_estimate(text@) <= u64::MAX,
            r == Ok::<u64, ContextError>(token_estimate(text@) as u64),
    {
        let n = chars_of(text).len();
        let q = n / 4;
        let t = if n % 4 == 0 { q } else { q + 1 };
        assert(t == (n + 3) / 4);
        Ok(t as u64)
    }

    /// The number of tokens usable before compaction.
    pub open spec fn usable_window(&self) -> int {
        (self.compact_threshold_percentage * self.model.context_window) / 100
    }

    /// The tokens the conversation would hold with `msg` added.
    pub open spec fn upcoming_total(&self, msg: Option<Seq<char>>) -> int {
        self.usage.total_tokens + match msg {
            Some(m) => token_estimate(m) as int,
            None => 0,
        }
    }

    /// The usage check computes within 64 bits.
    pub open spec fn usage_check_fits(&self, msg: Option<Seq<char>>) -> bool {
        &&& self.compact_threshold_percentage * self.model.context_window <= u64::MAX
        &&& self.upcoming_total(msg) <= u64::MAX
    }

    /// Adding `msg` would take the conversation past the usable window.
    pub open spec fn spec_exceeds(&self, msg: Option<Seq<char>>) -> bool {
        self.upcoming_total(msg) > self.usable_window()
    }

    /// Compaction is decided by the total tokens of the last response and the
    /// estimate of the new message alone: the conversation passes its window
    /// exactly when that sum exceeds the threshold share of the model's
    /// context window, whatever the input and output counts are.
    pub proof fn law_exceeds_counts_total_tokens(self, other: Self, msg: Option<Seq<char>>)
        requires
            other.usage.total_tokens == self.usage.total_tokens,
            other.compact_threshold_percentage == self.compact_threshold_percentage,
            other.model.context_window == self.model.context_window,
        ensures
            self.spec_exceeds(msg) <==> self.usage.total_tokens + match msg {
                Some(m) => (m.len() + 3) / 4,
                None => 0,
            } > (self.compact_threshold_percentage * self.model.context_window) / 100,
            self.spec_exceeds(msg) == other.spec_exceeds(msg),
    {
    }

    /// Whether the usage check of `msg` computes within 64 bits.
    pub fn usage_check_fits_exec(&self, new_msg: Option<&str>) -> (r: bool)
        ensures
            r == self.usage_check_fits(match new_msg { Some(m) => Some(m@), None => None }),
    {
        let upcoming = match new_msg {
            Some(msg) => match Self::estimate_token_usage(msg) {
                Ok(t) => t,
                Err(_) => return false,
            },
            None => 0,
        };
        let product_fits = match self.compact_threshold_percentage.checked_mul(
            self.model.context_window,
        ) {
            Some(_) => true,
            None => false,
        };
        let sum_fits = match self.usage.total_tokens.checked_add(upcoming) {
            Some(_) => true,
            None => false,
        };
        product_fits && sum_fits
    }

    /// Whether adding `new_msg` would pass the share of the context window
    /// at which the conversation is compacted.
    pub fn exceed_token_usage(&self, new_msg: Option<&str>) -> (r: Result<bool, ContextError>)
        requires
            self.usage_check_fits(match new_msg { Some(m) => Some(m@), None => None }),
        ensures
            r == Ok::<bool, ContextError>(
                self.spec_exceeds(match new_msg { Some(m) => Some(m@), None => None }),
            ),
    {
        let existing_usage = self.usage.total_tokens;
        let mut upcoming_usage: u64 = 0;
        if let Some(msg) = new_msg {
            upcoming_usage = match Self::estimate_token_usage(msg) {
                Ok(t) => t,
                Err(e) => return Err(e),
            };
        }
        let context_window = self.model.context_window;
        let useable_context_window = self.compact_threshold_percentage * context_window / 100;
        Ok(existing_usage + upcoming_usage > useable_context_window)
    }

    /// Installs the system prompt built from the instructions and the
    /// project's `AGENTS.md`, counting its tokens as input.
    pub fn build_system_prompt(&mut self, agents_md: Option<String>)
        requires
            old(self).usage.input_tokens + token_estimate(
                system_prompt_text(match agents_md { Some(v) => Some(v@), None => None }),
            ) <= u64::MAX,
        ensures
            ({
                let text = system_prompt_text(match agents_md { Some(v) => Some(v@), None => None });
                &&& final(self).system_prompt matches Some(p) && p@ == text
                &&& final(self).usage.input_tokens == old(self).usage.input_tokens + token_estimate(text)
                &&& final(self).usage.output_tokens == old(self).usage.output_tokens
                &&& final(self).usage.total_tokens == old(self).usage.total_tokens
                &&& final(self).event_logs == old(self).event_logs
                &&& final(self).compact_threshold_percentage == old(self).compact_threshold_percentage
                &&& final(self).model == old(self).model
                &&& final(self).effort == old(self).effort
            }),
    {
        let mut context = String::from_str(SYSTEM_PROMPT);
        if let Some(v) = agents_md {
            context.append("\n");
            context.append(v.as_str());
        }
        let system_tokens = match Self::estimate_token_usage(context.as_str()) {
            Ok(t) => t,
            Err(_) => 0,
        };
        self.usage.input_tokens = self.usage.input_tokens + system_tokens;
        self.system_prompt = Some(context);
    }
}

} // verus!
