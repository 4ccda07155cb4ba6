//! The messages exchanged with the Responses API, as plain data.
//!
//! JSON field names and tags are given in each type's documentation; the
//! encoding itself is done outside the library.

use vstd::prelude::*;

use crate::tools::{defines_sig, SystemTools, ToolDefinition};

verus! {

/// How much reasoning the model is asked to spend (`minimal`, `low`, `medium`, `high`).
#[derive(Debug, Clone, Copy, PartialEq, Eq, Structural)]
pub enum EffortLevel {
    Minimal,
    Low,
    Medium,
    High,
}

/// The `reasoning` object of a request.
pub struct Reasoning<'a> {
    pub effort: &'a EffortLevel,
}

/// The body of a request for a streamed model response.
pub struct ResponseRequest<'a> {
    pub model: String,
    pub input: &'a Vec<AgentEventItem>,
    pub stream: bool,
    pub tools: Option<Vec<ToolDefinition>>,
    pub tool_choice: Option<String>,
    pub reasoning: Option<Reasoning<'a>>,
    pub instructions: &'a Option<String>,
    pub context_management: Option<Vec<ContextManagement>>,
}

/// One entry of `context_management` (JSON field `type` is `kind` here).
pub struct ContextManagement {
    pub kind: String,
    pub compact_threshold: u64,
}

/// The role of a message's author (`user`, `assistant`).
#[derive(Debug, Clone, Copy, PartialEq, Eq, Structural)]
pub enum Role {
    User,
    Assistant,
}

/// The status of an item (`in_progress`, `completed`).
#[derive(Debug, Clone, Copy, PartialEq, Eq, Structural)]
pub enum ResponseStatus {
    InProgress,
    Completed,
}

/// One part of a message (JSON field `type` is `content_type` here).
/// Annotations are kept as the JSON text of each annotation.
pub struct Content {
    pub content_type: String,
    pub text: String,
    pub annotations: Option<Vec<String>>,
}

/// An item of the conversation, tagged by `type`: `message`, `reasoning`,
/// `function_call`, `function_call_output`. Reasoning summaries are kept as
/// the JSON text of each summary entry.
#[allow(inconsistent_fields)]
pub enum AgentEventItem {
    Message {
        id: Option<String>,
        status: Option<ResponseStatus>,
        role: Role,
        content: Vec<Content>,
    },
    Reasoning {
        id: String,
        status: ResponseStatus,
        summary: Vec<String>,
        encrypted_content: Option<String>,
        format: Option<String>,
    },
    ToolCall { id: String, status: ResponseStatus, call_id: String, name: String, arguments: String },
    ToolCallOutput { id: String, call_id: String, output: String },
}

/// The `response` object of `response.created` and `response.in_progress`.
pub struct ResponseCreatedItem {
    pub id: String,
    pub created_at: u64,
    pub model: String,
    pub status: ResponseStatus,
}

/// The `response` object of `response.completed`.
pub struct ResponseCompletedItem {
    pub id: String,
    pub completed_at: u64,
    pub usage: Option<Usage>,
}

/// Token counts of a response. The monetary cost that the API also reports
/// is a floating-point amount and is accounted outside the library.
#[derive(Debug, Clone, Copy, PartialEq, Eq, Structural)]
pub struct Usage {
    pub input_tokens: u64,
    pub output_tokens: u64,
    pub total_tokens: u64,
}

/// The events of a response stream, tagged by `type` (`response.created`,
/// `response.in_progress`, `response.output_item.added`,
/// `response.content_part.added`, `response.output_text.delta`,
/// `response.output_text.done`, `response.content_part.done`,
/// `response.reasoning_summary_part.added`,
/// `response.reasoning_summary_text.delta`,
/// `response.function_call_arguments.delta`,
/// `response.function_call_arguments.done`, `response.output_item.done`,
/// `response.completed`).
#[allow(inconsistent_fields)]
pub enum OpenRouterEvents {
    ResponseCreated { response: ResponseCreatedItem },
    ResponseInProgress { response: ResponseCreatedItem },
    ResponseOutputItemAdded { output_index: u64, item: AgentEventItem },
    ResponseContentPartAdded { output_index: u16, item_id: String, part: Content },
    ResponseOutputTextDelta { output_index: u16, item_id: String, content_index: u16, delta: String },
    ResponseOutputTextDone { output_index: u16, item_id: String, content_index: u16, text: String },
    ResponseContentPartDone {
        output_index: u16,
        item_id: String,
        content_index: u16,
        part: Content,
    },
    ResponseReasoningSummartPartAdded { summary_index: u16, part: Content },
    ResponseReasoningSummaryTextDelta {
        output_index: u16,
        item_id: String,
        summary_index: u16,
        delta: String,
    },
    ResponseFunctionCallArgumentsDelta { output_index: u16, item_id: String, delta: String },
    ResponseFunctionCallArgumentsDone { output_index: u16, item_id: String, arguments: String },
    ResponseOutputItemDone { output_index: u16, item: AgentEventItem },
    ResponseCompleted { response: ResponseCompletedItem },
}

impl Default for Usage {
    /// All counts zero.
    fn default() -> (u: Self)
        ensures
            u == (Usage { input_tokens: 0, output_tokens: 0, total_tokens: 0 }),
    {
        Usage { input_tokens: 0, output_tokens: 0, total_tokens: 0 }
    }
}

impl AgentEventItem {
    /// Whether this item is a user message with one `input_text` part holding `text`.
    pub open spec fn is_user_message(self, text: Seq<char>) -> bool {
        &&& self matches AgentEventItem::Message { id, status, role, content }
        &&& id is None
        &&& status is None
        &&& role == Role::User
        &&& content@.len() == 1
        &&& content@[0].content_type@ == "input_text"@
        &&& content@[0].text@ == text
        &&& content@[0].annotations is None
    }

    /// A user message holding `input` as its only `input_text` part.
    pub fn new_user_message(input: String) -> (m: Self)
        ensures
            m.is_user_message(input@),
    {
        let content = Content {
            content_type: String::from_str("input_text"),
            text: input,
            annotations: None,
        };
        let mut parts: Vec<Content> = Vec::new();
        parts.push(content);
        AgentEventItem::Message { id: None, status: None, role: Role::User, content: parts }
    }
}

impl Default for ContextManagement {
    /// Server-side compaction once the context reaches 200000 tokens.
    fn default() -> (c: Self)
        ensures
            c.kind@ == "compaction"@,
            c.compact_threshold == 200000,
    {
        ContextManagement { kind: String::from_str("compaction"), compact_threshold: 200000 }
    }
}

impl<'a> ResponseRequest<'a> {
    /// A streamed request for `model` over `input`, offering every system tool
    /// with automatic tool choice and server-side compaction.
    pub fn new(
        model: String,
        input: &'a Vec<AgentEventItem>,
        effort: Option<&'a EffortLevel>,
        system_prompt: &'a Option<String>,
    ) -> (r: Self)
        ensures
            r.model == model,
            r.input == input,
            r.stream,
            r.tools matches Some(ts) && ts@.len() == SystemTools::spec_all().len() && forall|i: int|
                0 <= i < ts@.len() ==> defines_sig(
                    #[trigger] ts@[i],
                    SystemTools::spec_all()[i].spec_signature(),
                ),
            r.tool_choice matches Some(c) && c@ == "auto"@,
            match effort {
                Some(e) => r.reasoning matches Some(re) && re.effort == e,
                None => r.reasoning is None,
            },
            r.instructions == system_prompt,
            r.context_management matches Some(cm) && cm@.len() == 1 && cm@[0].kind@ == "compaction"@
                && cm@[0].compact_threshold == 200000,
    {
        let all = SystemTools::all();
        let mut defs: Vec<ToolDefinition> = Vec::new();
        let mut i: usize = 0;
        while i < all.len()
            invariant
                i <= all@.len(),
                all@ == SystemTools::spec_all(),
                defs@.len() == i,
                forall|j: int|
                    0 <= j < i ==> defines_sig(#[trigger] defs@[j], SystemTools::spec_all()[j].spec_signature()),
            decreases all.len() - i,
        {
            let d = all[i].definition();
            defs.push(d);
            i = i + 1;
        }
        let reasoning = match effort {
            Some(eff) => Some(Reasoning { effort: eff }),
            None => None,
        };
        let mut cms: Vec<ContextManagement> = Vec::new();
        cms.push(ContextManagement::default());
        ResponseRequest {
            model,
            input,
            stream: true,
            tools: Some(defs),
            tool_choice: Some(String::from_str("auto")),
            reasoning,
            instructions: system_prompt,
            context_management: Some(cms),
        }
    }
}

} // verus!
