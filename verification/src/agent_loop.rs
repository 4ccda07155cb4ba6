//! The agent loop's decisions: how a turn starts, what each streamed event
//! changes, how tool calls are planned and answered, and when the loop stops.
//!
//! The front ends run the loop: they fetch the response stream, print,
//! persist and execute tools, and hand each result to these functions.

use vstd::prelude::*;

use crate::approval::{ApprovalDecision, ApprovalHandler, ApprovalRequest};
use crate::context::{token_estimate, Context, ContextError};
use crate::json_text::{json_quote, json_quoted};
use crate::parser::{AgentEventItem, Content, OpenRouterEvents, Usage};
use crate::tools::SystemTools;

verus! {

/// The request sent instead of the user's message when the conversation must be compacted.
pub const COMPACTION_PROMPT: &'static str = "Create a concise continuation summary of the conversation. Preserve the user's current goal, important decisions, relevant file paths and code details, tool results, errors, and unfinished work. Omit greetings, repetition, and obsolete discussion. Write only the summary needed for another assistant to continue the task without losing context.";

/// The output recorded for a tool call that the user rejected.
pub const REJECTED_OUTPUT: &'static str = "{\"status\":\"tool call rejected by user\"}";

/// Everything but the usage of two contexts agrees.
pub open spec fn same_but_usage(a: Context, b: Context) -> bool {
    &&& a.event_logs@ == b.event_logs@
    &&& a.system_prompt == b.system_prompt
    &&& a.compact_threshold_percentage == b.compact_threshold_percentage
    &&& a.model == b.model
    &&& a.effort == b.effort
}

/// Everything but the event log of two contexts agrees.
pub open spec fn same_but_log(a: Context, b: Context) -> bool {
    &&& a.system_prompt == b.system_prompt
    &&& a.usage == b.usage
    &&& a.compact_threshold_percentage == b.compact_threshold_percentage
    &&& a.model == b.model
    &&& a.effort == b.effort
}

/// How a turn begins.
pub struct TurnStart {
    /// The user's message, recorded in the session log.
    pub user_msg: AgentEventItem,
    /// The message appended to the conversation for this request.
    pub request_msg: AgentEventItem,
    /// Whether this request compacts the conversation.
    pub compaction: bool,
    /// Messages to add to the conversation once the request is answered.
    pub user_msg_queue: Vec<AgentEventItem>,
}

/// Whether the turn for `prompt` compacts the conversation first.
pub open spec fn turn_compacts(context: Context, prompt: Seq<char>, new_session: bool) -> bool {
    !new_session && context.spec_exceeds(Some(prompt))
}

/// Starts a turn for the user's `prompt`. In a session that already has
/// messages, a prompt that would pass the compaction threshold is queued and a
/// summary of the conversation is requested in its place.
pub fn prepare_turn(context: &Context, prompt: &String, new_session: bool) -> (r: Result<
    TurnStart,
    ContextError,
>)
    requires
        !new_session ==> context.usage_check_fits(Some(prompt@)),
    ensures
        r matches Ok(t) && {
            &&& t.user_msg.is_user_message(prompt@)
            &&& t.compaction == turn_compacts(*context, prompt@, new_session)
            &&& if t.compaction {
                &&& t.request_msg.is_user_message(COMPACTION_PROMPT@)
                &&& t.user_msg_queue@.len() == 1
                &&& t.user_msg_queue@[0].is_user_message(prompt@)
            } else {
                &&& t.request_msg.is_user_message(prompt@)
                &&& t.user_msg_queue@.len() == 0
            }
        },
{
    let user_msg = AgentEventItem::new_user_message(prompt.clone());
    if new_session {
        let request_msg = AgentEventItem::new_user_message(prompt.clone());
        return Ok(TurnStart { user_msg, request_msg, compaction: false, user_msg_queue: Vec::new() });
    }
    let token_limit_hit = match context.exceed_token_usage(Some(prompt.as_str())) {
        Ok(b) => b,
        Err(e) => return Err(e),
    };
    if token_limit_hit {
        let mut queue: Vec<AgentEventItem> = Vec::new();
        queue.push(AgentEventItem::new_user_message(prompt.clone()));
        let request_msg = AgentEventItem::new_user_message(String::from_str(COMPACTION_PROMPT));
        Ok(TurnStart { user_msg, request_msg, compaction: true, user_msg_queue: queue })
    } else {
        let request_msg = AgentEventItem::new_user_message(prompt.clone());
        Ok(TurnStart { user_msg, request_msg, compaction: false, user_msg_queue: Vec::new() })
    }
}

/// The conversation a round's request is sent with, `request`, begun from
/// the conversation `log`: the same, or with a request for a summary
/// appended when the round compacts.
pub open spec fn starts_round(log: Seq<AgentEventItem>, request: Seq<AgentEventItem>) -> bool {
    ||| request == log
    ||| {
        &&& request.len() == log.len() + 1
        &&& request.drop_last() == log
        &&& request.last().is_user_message(COMPACTION_PROMPT@)
    }
}

/// Starts one round of the loop. After a round that ended with nothing to
/// continue (`stop_agent`), nothing changes; otherwise, when the conversation
/// has passed its compaction threshold, a summary request is appended and
/// compaction begins. Returns whether the loop may stop after this round.
pub fn begin_iteration(context: &mut Context, compaction: &mut bool, stop_agent: bool) -> (r: Result<
    bool,
    ContextError,
>)
    requires
        !stop_agent ==> old(context).usage_check_fits(None),
    ensures
        starts_round(old(context).event_logs@, final(context).event_logs@),
        ({
            let hit = !stop_agent && old(context).spec_exceeds(None);
            &&& r == Ok::<bool, ContextError>(!hit)
            &&& same_but_log(*final(context), *old(context))
            &&& if hit {
                &&& *final(compaction)
                &&& final(context).event_logs@.len() == old(context).event_logs@.len() + 1
                &&& final(context).event_logs@.drop_last() == old(context).event_logs@
                &&& final(context).event_logs@.last().is_user_message(COMPACTION_PROMPT@)
            } else {
                &&& *final(compaction) == *old(compaction)
                &&& final(context).event_logs@ == old(context).event_logs@
            }
        }),
{
    let mut token_limit_hit = false;
    if !stop_agent {
        token_limit_hit = match context.exceed_token_usage(None) {
            Ok(b) => b,
            Err(e) => return Err(e),
        };
        if token_limit_hit {
            *compaction = true;
            let summarize_msg = AgentEventItem::new_user_message(String::from_str(COMPACTION_PROMPT));
            context.event_logs.push(summarize_msg);
            assert(context.event_logs@.drop_last() =~= old(context).event_logs@);
        }
    }
    Ok(!token_limit_hit)
}

/// The tokens of a message's parts.
pub open spec fn content_tokens(cs: Seq<Content>) -> int
    decreases cs.len(),
{
    if cs.len() == 0 {
        0
    } else {
        content_tokens(cs.drop_last()) + token_estimate(cs.last().text@)
    }
}

/// The tokens of the summary a compaction produced: those of the last item
/// of the round when it is a message, else none.
pub open spec fn summary_tokens(items: Seq<AgentEventItem>) -> int {
    if items.len() > 0 {
        match items.last() {
            AgentEventItem::Message { content, .. } => content_tokens(content@),
            _ => 0,
        }
    } else {
        0
    }
}

/// An item worth keeping: anything but a reasoning item without a summary.
pub open spec fn keeps_item(item: AgentEventItem) -> bool {
    match item {
        AgentEventItem::Reasoning { summary, .. } => summary@.len() > 0,
        _ => true,
    }
}

/// The usage after a response completes. After a compaction the conversation
/// is only the summary, so its tokens become the whole usage; otherwise the
/// counts the API reports replace the previous ones.
pub open spec fn completed_usage(
    previous: Usage,
    compaction: bool,
    items: Seq<AgentEventItem>,
    reported: Option<Usage>,
) -> Usage {
    if compaction {
        Usage {
            input_tokens: 0,
            output_tokens: summary_tokens(items) as u64,
            total_tokens: summary_tokens(items) as u64,
        }
    } else {
        match reported {
            Some(u) => u,
            None => previous,
        }
    }
}

fn count_content_tokens(cs: &Vec<Content>) -> (r: Result<u64, ContextError>)
    requires
        content_tokens(cs@) <= u64::MAX,
    ensures
        r == Ok::<u64, ContextError>(content_tokens(cs@) as u64),
{
    let mut total: u64 = 0;
    let mut i: usize = 0;
    while i < cs.len()
        invariant
            i <= cs@.len(),
            content_tokens(cs@) <= u64::MAX,
            total == content_tokens(cs@.take(i as int)),
        decreases cs.len() - i,
    {
        let tokens = match Context::estimate_token_usage(cs[i].text.as_str()) {
            Ok(t) => t,
            Err(e) => return Err(e),
        };
        proof {
            assert(cs@.take(i + 1).drop_last() =~= cs@.take(i as int));
            lemma_content_tokens_prefix(cs@, i + 1);
        }
        total = total + tokens;
        i = i + 1;
    }
    assert(cs@.take(i as int) =~= cs@);
    Ok(total)
}

proof fn lemma_content_tokens_prefix(cs: Seq<Content>, k: int)
    requires
        0 <= k <= cs.len(),
    ensures
        content_tokens(cs.take(k)) <= content_tokens(cs),
    decreases cs.len() - k,
{
    if k < cs.len() {
        lemma_content_tokens_prefix(cs, k + 1);
        assert(cs.take(k + 1).drop_last() =~= cs.take(k));
    } else {
        assert(cs.take(k) =~= cs);
    }
}

/// Whether the summary tokens of the round's items fit in 64 bits, as
/// `record_event` needs when a compacting response completes.
pub fn summary_tokens_fit(tmp_event_logs: &Vec<AgentEventItem>) -> (r: bool)
    ensures
        r == (summary_tokens(tmp_event_logs@) <= u64::MAX),
{
    let n = tmp_event_logs.len();
    if n == 0 {
        return true;
    }
    let last = &tmp_event_logs[n - 1];
    assert(tmp_event_logs@.last() == *last);
    match last {
        AgentEventItem::Message { content, .. } => {
            let mut total: u64 = 0;
            let mut i: usize = 0;
            assert(summary_tokens(tmp_event_logs@) == content_tokens(content@));
            assert(content@.take(0) =~= Seq::<Content>::empty());
            while i < content.len()
                invariant
                    i <= content@.len(),
                    total == content_tokens(content@.take(i as int)),
                    summary_tokens(tmp_event_logs@) == content_tokens(content@),
                decreases content.len() - i,
            {
                let tokens = match Context::estimate_token_usage(content[i].text.as_str()) {
                    Ok(t) => t,
                    Err(_) => return false,
                };
                proof {
                    assert(content@.take(i + 1).drop_last() =~= content@.take(i as int));
                    assert(content@.take(i + 1).last() == content@[i as int]);
                    assert(content_tokens(content@.take(i + 1)) == total + tokens);
                }
                match total.checked_add(tokens) {
                    Some(t) => {
                        total = t;
                    },
                    None => {
                        proof {
                            lemma_content_tokens_prefix(content@, i + 1);
                            assert(total + tokens > u64::MAX);
                            assert(content_tokens(content@) > u64::MAX);
                        }
                        return false;
                    },
                }
                i = i + 1;
            }
            assert(content@.take(i as int) =~= content@);
            true
        },
        _ => true,
    }
}

/// The context and the round's items after `event` is recorded: a finished
/// item worth keeping joins the round, a completed response sets the usage,
/// and nothing else changes.
pub open spec fn after_event<'a>(
    context: Context<'a>,
    items: Seq<AgentEventItem>,
    compaction: bool,
    event: OpenRouterEvents,
) -> (Context<'a>, Seq<AgentEventItem>) {
    match event {
        OpenRouterEvents::ResponseOutputItemDone { item, .. } => (
            context,
            if keeps_item(item) {
                items.push(item)
            } else {
                items
            },
        ),
        OpenRouterEvents::ResponseCompleted { response } => (
            Context { usage: completed_usage(context.usage, compaction, items, response.usage), ..context },
            items,
        ),
        _ => (context, items),
    }
}

/// A finished item joins the round unless it is a reasoning item with an
/// empty summary: messages, tool calls and reasoning that carries a summary
/// are kept, and the context does not change.
pub proof fn law_only_empty_reasoning_is_dropped<'a>(
    context: Context<'a>,
    items: Seq<AgentEventItem>,
    compaction: bool,
    output_index: u16,
    item: AgentEventItem,
)
    ensures
        ({
            let (c, round) = after_event(
                context,
                items,
                compaction,
                OpenRouterEvents::ResponseOutputItemDone { output_index, item },
            );
            &&& c == context
            &&& round == if item matches AgentEventItem::Reasoning { summary, .. } && summary@.len() == 0 {
                items
            } else {
                items.push(item)
            }
        }),
{
}

/// The context and the round's items after `events` are recorded in order.
pub open spec fn after_events<'a>(
    context: Context<'a>,
    items: Seq<AgentEventItem>,
    compaction: bool,
    events: Seq<OpenRouterEvents>,
) -> (Context<'a>, Seq<AgentEventItem>)
    decreases events.len(),
{
    if events.len() == 0 {
        (context, items)
    } else {
        let (c, i) = after_events(context, items, compaction, events.drop_last());
        after_event(c, i, compaction, events.last())
    }
}

/// Recording a round's events changes nothing of the context but its usage:
/// the conversation changes only when the round is committed
/// (`commit_iteration`). A round abandoned before its commit, as one whose
/// tool call fails, leaves the conversation as the round began it.
pub proof fn law_recording_keeps_conversation<'a>(
    context: Context<'a>,
    items: Seq<AgentEventItem>,
    compaction: bool,
    events: Seq<OpenRouterEvents>,
)
    ensures
        same_but_usage(after_events(context, items, compaction, events).0, context),
    decreases events.len(),
{
    if events.len() > 0 {
        law_recording_keeps_conversation(context, items, compaction, events.drop_last());
    }
}

/// Applies one streamed event to the round in progress: a finished output item
/// is kept (unless it is a reasoning item with no summary), and a completed
/// response updates the token usage. Other events only show progress.
pub fn record_event(
    context: &mut Context,
    tmp_event_logs: &mut Vec<AgentEventItem>,
    compaction: bool,
    event: OpenRouterEvents,
) -> (r: Result<(), ContextError>)
    requires
        compaction && event is ResponseCompleted ==> summary_tokens(old(tmp_event_logs)@) <= u64::MAX,
    ensures
        r is Ok,
        (*final(context), final(tmp_event_logs)@) == after_event(
            *old(context),
            old(tmp_event_logs)@,
            compaction,
            event,
        ),
        match event {
            OpenRouterEvents::ResponseOutputItemDone { item, .. } => {
                &&& *final(context) == *old(context)
                &&& final(tmp_event_logs)@ == if keeps_item(item) {
                    old(tmp_event_logs)@.push(item)
                } else {
                    old(tmp_event_logs)@
                }
            },
            OpenRouterEvents::ResponseCompleted { response } => {
                &&& same_but_usage(*final(context), *old(context))
                &&& final(context).usage == completed_usage(
                    old(context).usage,
                    compaction,
                    old(tmp_event_logs)@,
                    response.usage,
                )
                &&& final(tmp_event_logs)@ == old(tmp_event_logs)@
            },
            _ => *final(context) == *old(context) && final(tmp_event_logs)@ == old(
                tmp_event_logs,
            )@,
        },
{
    match event {
        OpenRouterEvents::ResponseOutputItemDone { item, .. } => {
            let keep = match &item {
                AgentEventItem::Reasoning { summary, .. } => summary.len() > 0,
                _ => true,
            };
            if keep {
                tmp_event_logs.push(item);
            }
            Ok(())
        },
        OpenRouterEvents::ResponseCompleted { response } => {
            if compaction {
                let n = tmp_event_logs.len();
                let summary: u64 = if n > 0 {
                    match &tmp_event_logs[n - 1] {
                        AgentEventItem::Message { content, .. } => {
                            match count_content_tokens(content) {
                                Ok(t) => t,
                                Err(e) => return Err(e),
                            }
                        },
                        _ => 0,
                    }
                } else {
                    0
                };
                context.usage = Usage { input_tokens: 0, output_tokens: summary, total_tokens: summary };
            } else {
                match response.usage {
                    Some(new_usage) => {
                        context.usage = new_usage;
                    },
                    None => {},
                }
            }
            Ok(())
        },
        _ => Ok(()),
    }
}

/// Adds the outputs of the round's tool calls; a round that called tools
/// must continue so that the model sees their outputs.
pub fn attach_tool_outputs(
    tmp_event_logs: &mut Vec<AgentEventItem>,
    outputs: Vec<AgentEventItem>,
    stop_agent: bool,
) -> (stop: bool)
    ensures
        final(tmp_event_logs)@ == old(tmp_event_logs)@ + outputs@,
        stop == (stop_agent && outputs@.len() == 0),
{
    let mut outputs = outputs;
    let had_outputs = outputs.len() > 0;
    tmp_event_logs.append(&mut outputs);
    stop_agent && !had_outputs
}

/// The conversation after a round: a compaction replaces the conversation
/// with the round's items, otherwise they are appended; queued messages follow.
pub open spec fn committed_log(
    log: Seq<AgentEventItem>,
    compaction: bool,
    round: Seq<AgentEventItem>,
    queue: Seq<AgentEventItem>,
) -> Seq<AgentEventItem> {
    (if compaction {
        Seq::empty()
    } else {
        log
    }) + round + queue
}

/// The tool calls among a round's items, in order.
pub open spec fn tool_calls_of(items: Seq<AgentEventItem>) -> Seq<AgentEventItem>
    decreases items.len(),
{
    if items.len() == 0 {
        seq![]
    } else if items.last() is ToolCall {
        tool_calls_of(items.drop_last()).push(items.last())
    } else {
        tool_calls_of(items.drop_last())
    }
}

/// The tool calls of a round are exactly its items that are tool calls, in
/// order and each once: the items filtered by being a tool call.
pub proof fn law_tool_calls_are_the_calls_in_order(items: Seq<AgentEventItem>)
    ensures
        tool_calls_of(items) == items.filter(|x: AgentEventItem| x is ToolCall),
    decreases items.len(),
{
    reveal(Seq::filter);
    if items.len() > 0 {
        law_tool_calls_are_the_calls_in_order(items.drop_last());
    }
}

/// The positions of the tool calls among a round's items, in order: the
/// calls the loop answers, one after the other.
pub fn round_tool_calls(items: &Vec<AgentEventItem>) -> (v: Vec<usize>)
    ensures
        v@.len() == tool_calls_of(items@).len(),
        forall|k: int|
            0 <= k < v@.len() ==> {
                &&& (#[trigger] v@[k]) < items@.len()
                &&& items@[v@[k] as int] == tool_calls_of(items@)[k]
            },
        forall|k: int, l: int| 0 <= k < l < v@.len() ==> #[trigger] v@[k] < #[trigger] v@[l],
        forall|i: int|
            0 <= i < items@.len() ==> ((#[trigger] items@[i]) is ToolCall <==> exists|k: int|
                0 <= k < v@.len() && v@[k] == i),
{
    let mut v: Vec<usize> = Vec::new();
    let mut i: usize = 0;
    assert(items@.take(0) =~= Seq::<AgentEventItem>::empty());
    while i < items.len()
        invariant
            i <= items@.len(),
            v@.len() == tool_calls_of(items@.take(i as int)).len(),
            forall|k: int|
                0 <= k < v@.len() ==> {
                    &&& (#[trigger] v@[k]) < i
                    &&& items@[v@[k] as int] == tool_calls_of(items@.take(i as int))[k]
                },
            forall|k: int, l: int| 0 <= k < l < v@.len() ==> #[trigger] v@[k] < #[trigger] v@[l],
            forall|j: int|
                0 <= j < i ==> ((#[trigger] items@[j]) is ToolCall <==> exists|k: int|
                    0 <= k < v@.len() && v@[k] == j),
        decreases items.len() - i,
    {
        assert(items@.take(i + 1).drop_last() =~= items@.take(i as int));
        assert(items@.take(i + 1).last() == items@[i as int]);
        let is_call = match &items[i] {
            AgentEventItem::ToolCall { .. } => true,
            _ => false,
        };
        let ghost before = v@;
        if is_call {
            v.push(i);
            proof {
                assert(v@[before.len() as int] == i);
                assert forall|j: int| 0 <= j < i implies ((#[trigger] items@[j]) is ToolCall <==> exists|k: int|
                    0 <= k < v@.len() && v@[k] == j) by {
                    if items@[j] is ToolCall {
                        let k = choose|k: int| 0 <= k < before.len() && before[k] == j;
                        assert(v@[k] == j);
                    } else {
                        assert forall|k: int| 0 <= k < v@.len() implies v@[k] != j by {
                            if k < before.len() {
                                assert(v@[k] == before[k]);
                            }
                        }
                    }
                }
            }
        } else {
            proof {
                assert forall|k: int| 0 <= k < v@.len() implies v@[k] != i by {
                    assert(v@[k] < i);
                }
            }
        }
        i = i + 1;
    }
    assert(items@.take(i as int) =~= items@);
    v
}

/// `output` is the answer of the tool call `call`: its identifier is the
/// call's with `_output` appended and it names the same call.
pub open spec fn output_for(output: AgentEventItem, call: AgentEventItem) -> bool {
    &&& call matches AgentEventItem::ToolCall { id, call_id, .. }
    &&& output matches AgentEventItem::ToolCallOutput { id: output_id, call_id: output_call_id, .. }
    &&& output_id@ == id@ + "_output"@
    &&& output_call_id == call_id
}

/// Each of `outputs` answers the call at its place among `calls`, and there
/// is one output per call.
pub open spec fn answers_in_order(outputs: Seq<AgentEventItem>, calls: Seq<AgentEventItem>) -> bool {
    &&& outputs.len() == calls.len()
    &&& forall|j: int| 0 <= j < outputs.len() ==> output_for(#[trigger] outputs[j], calls[j])
}

/// Whether the loop stops after a round: `attach_tool_outputs` keeps the
/// stop only when no call was answered, and `commit_iteration` only when no
/// message was queued.
pub open spec fn round_ends(stop_agent: bool, outputs: Seq<AgentEventItem>, queue: Seq<AgentEventItem>) -> bool {
    stop_agent && outputs.len() == 0 && queue.len() == 0
}

/// A round that called tools answers each call once, in the order of the
/// calls: when the round's kept items `K` (recorded from its `events`) are
/// followed by outputs that answer `K`'s calls in order, the conversation
/// after the commit is the one the round began with (or nothing, after a
/// compaction), then `K`, then the outputs, then the queued messages; each
/// output stands after `K` at the place of its call; and the loop goes on
/// with another request, so that the model sees them. Until the commit the
/// conversation is untouched (`law_recording_keeps_conversation`), so a round
/// whose tool call fails, and which is therefore never committed, adds
/// nothing to it.
pub proof fn law_round_answers_its_calls<'a>(
    context: Context<'a>,
    compaction: bool,
    events: Seq<OpenRouterEvents>,
    outputs: Seq<AgentEventItem>,
    queue: Seq<AgentEventItem>,
    stop_agent: bool,
)
    requires
        answers_in_order(outputs, tool_calls_of(after_events(context, seq![], compaction, events).1)),
    ensures
        ({
            let recorded = after_events(context, seq![], compaction, events);
            let kept = recorded.1;
            let base: Seq<AgentEventItem> = if compaction {
                seq![]
            } else {
                context.event_logs@
            };
            let log = committed_log(recorded.0.event_logs@, compaction, kept + outputs, queue);
            &&& recorded.0.event_logs@ == context.event_logs@
            &&& log == base + kept + outputs + queue
            &&& forall|j: int|
                0 <= j < outputs.len() ==> output_for(
                    #[trigger] log[base.len() + kept.len() + j],
                    tool_calls_of(kept)[j],
                )
            &&& tool_calls_of(kept).len() > 0 ==> !round_ends(stop_agent, outputs, queue)
        }),
{
    law_recording_keeps_conversation(context, seq![], compaction, events);
    let recorded = after_events(context, seq![], compaction, events);
    let kept = recorded.1;
    let base: Seq<AgentEventItem> = if compaction {
        seq![]
    } else {
        context.event_logs@
    };
    let log = committed_log(recorded.0.event_logs@, compaction, kept + outputs, queue);
    assert(log =~= base + kept + outputs + queue);
    assert forall|j: int| 0 <= j < outputs.len() implies output_for(
        #[trigger] log[base.len() + kept.len() + j],
        tool_calls_of(kept)[j],
    ) by {
        assert(log[base.len() + kept.len() + j] == outputs[j]);
    }
}

/// Messages queued while the model worked reach the next request: a round
/// that commits with messages queued does not end the loop, and the request
/// that follows is sent with the committed conversation, in which the queued
/// messages stand, in order, right after the round's items and outputs.
pub proof fn law_queued_messages_reach_next_request(
    log: Seq<AgentEventItem>,
    compaction: bool,
    kept: Seq<AgentEventItem>,
    outputs: Seq<AgentEventItem>,
    queue: Seq<AgentEventItem>,
    stop_agent: bool,
    next_request: Seq<AgentEventItem>,
)
    requires
        queue.len() > 0,
        starts_round(committed_log(log, compaction, kept + outputs, queue), next_request),
    ensures
        !round_ends(stop_agent, outputs, queue),
        ({
            let committed = committed_log(log, compaction, kept + outputs, queue);
            let start: int = if compaction {
                0
            } else {
                log.len() as int
            };
            &&& next_request.subrange(0, committed.len() as int) == committed
            &&& next_request.subrange(start, start + kept.len() + outputs.len() + queue.len()) == kept
                + outputs + queue
        }),
{
    let committed = committed_log(log, compaction, kept + outputs, queue);
    let start: int = if compaction {
        0
    } else {
        log.len() as int
    };
    if next_request != committed {
        assert(next_request.drop_last() == committed);
        assert(next_request.subrange(0, committed.len() as int) =~= committed);
    } else {
        assert(next_request.subrange(0, committed.len() as int) =~= committed);
    }
    assert(committed.subrange(start, start + kept.len() + outputs.len() + queue.len()) =~= kept + outputs
        + queue);
    assert(next_request.subrange(start, start + kept.len() + outputs.len() + queue.len()) =~= committed.subrange(
        start,
        start + kept.len() + outputs.len() + queue.len(),
    ));
}

/// A message that arrives when the conversation is full is not lost: the
/// turn requests a summary, and once the round commits, the conversation is
/// the round's items (the summary) followed by that message.
pub proof fn law_compaction_keeps_user_message(
    log: Seq<AgentEventItem>,
    round: Seq<AgentEventItem>,
    queue: Seq<AgentEventItem>,
    prompt: Seq<char>,
)
    requires
        queue.len() == 1,
        queue[0].is_user_message(prompt),
    ensures
        committed_log(log, true, round, queue) == round.push(queue[0]),
        committed_log(log, true, round, queue).last().is_user_message(prompt),
{
    assert(committed_log(log, true, round, queue) =~= round.push(queue[0]));
}

/// Without compaction nothing is forgotten: the conversation before the
/// round is kept as its beginning.
pub proof fn law_commit_keeps_history(
    log: Seq<AgentEventItem>,
    round: Seq<AgentEventItem>,
    queue: Seq<AgentEventItem>,
)
    ensures
        committed_log(log, false, round, queue).subrange(0, log.len() as int) == log,
        committed_log(log, false, round, queue).len() == log.len() + round.len() + queue.len(),
{
    assert(committed_log(log, false, round, queue).subrange(0, log.len() as int) =~= log);
}

/// Ends a round: a compaction replaces the conversation with the round's
/// items, otherwise they are appended; queued user messages follow them.
/// Returns whether the loop stops, which it does only when asked to and no
/// message was queued.
pub fn commit_iteration(
    context: &mut Context,
    tmp_event_logs: Vec<AgentEventItem>,
    compaction: &mut bool,
    user_msg_queue: &mut Vec<AgentEventItem>,
    stop_agent: bool,
) -> (stop: bool)
    ensures
        final(context).event_logs@ == committed_log(
            old(context).event_logs@,
            *old(compaction),
            tmp_event_logs@,
            old(user_msg_queue)@,
        ),
        same_but_log(*final(context), *old(context)),
        !*final(compaction),
        final(user_msg_queue)@.len() == 0,
        stop == (stop_agent && old(user_msg_queue)@.len() == 0),
{
    let mut tmp = tmp_event_logs;
    if *compaction {
        context.event_logs.clear();
        *compaction = false;
    }
    context.event_logs.append(&mut tmp);
    let queued = user_msg_queue.len() > 0;
    context.event_logs.append(user_msg_queue);
    stop_agent && !queued
}

/// A tool call found in the model's output, resolved to its tool.
pub struct ToolCallPlan {
    pub tool: SystemTools,
    pub id: String,
    pub call_id: String,
    pub name: String,
    pub arguments: String,
}

impl ToolCallPlan {
    /// The search index is handed only to the search tools.
    pub open spec fn uses_search(&self) -> bool {
        self.tool == SystemTools::SearchFiles || self.tool == SystemTools::SearchContent
    }

    /// The session is handed only to the todo-list tool.
    pub open spec fn uses_session(&self) -> bool {
        self.tool == SystemTools::CreateTodoList
    }

    /// Whether the tool's execution needs the search index.
    pub fn needs_search(&self) -> (r: bool)
        ensures
            r == self.uses_search(),
    {
        match self.tool {
            SystemTools::SearchFiles | SystemTools::SearchContent => true,
            _ => false,
        }
    }

    /// Whether the tool's execution needs the session identifier.
    pub fn needs_session(&self) -> (r: bool)
        ensures
            r == self.uses_session(),
    {
        match self.tool {
            SystemTools::CreateTodoList => true,
            _ => false,
        }
    }
}

/// Why a tool call could not be answered.
#[derive(Debug)]
pub enum ToolCallError {
    /// The item is not a tool call.
    NotAToolCall,
    /// No tool has this name.
    UnknownTool(String),
    /// Asking for approval failed, with this message.
    Approval(String),
}

/// `plan` is the resolution of the tool call `item`: its tool is the one the
/// call names, and it carries the call's identifiers and arguments.
pub open spec fn resolves(plan: ToolCallPlan, item: AgentEventItem) -> bool {
    item matches AgentEventItem::ToolCall { id, call_id, name, arguments, .. } && {
        &&& SystemTools::spec_from_name(name@) == Some(plan.tool)
        &&& plan.id == id
        &&& plan.call_id == call_id
        &&& plan.name == name
        &&& plan.arguments == arguments
    }
}

/// Resolves a tool call item to the tool it names.
pub fn plan_tool_call(item: &AgentEventItem) -> (r: Result<ToolCallPlan, ToolCallError>)
    ensures
        match *item {
            AgentEventItem::ToolCall { name, .. } => match SystemTools::spec_from_name(name@) {
                Some(t) => r matches Ok(p) && resolves(p, *item),
                None => r matches Err(ToolCallError::UnknownTool(n)) && n == name,
            },
            _ => r matches Err(ToolCallError::NotAToolCall),
        },
{
    match item {
        AgentEventItem::ToolCall { id, call_id, name, arguments, .. } => {
            match SystemTools::variant_from_name(name.as_str()) {
                Some(tool) => Ok(
                    ToolCallPlan {
                        tool,
                        id: id.clone(),
                        call_id: call_id.clone(),
                        name: name.clone(),
                        arguments: arguments.clone(),
                    },
                ),
                None => Err(ToolCallError::UnknownTool(name.clone())),
            }
        },
        _ => Err(ToolCallError::NotAToolCall),
    }
}

/// The request shown to the user for a planned call: its call identifier,
/// tool name and arguments.
pub fn approval_request<'a>(plan: &'a ToolCallPlan) -> (r: ApprovalRequest<'a>)
    ensures
        r.call_id@ == plan.call_id@,
        r.tool_name@ == plan.name@,
        r.arguments@ == plan.arguments@,
{
    ApprovalRequest {
        call_id: plan.call_id.as_str(),
        tool_name: plan.name.as_str(),
        arguments: plan.arguments.as_str(),
    }
}

/// What a handler's answer means for the call: approval lets it run, a
/// rejection does not, and a failure to ask is an error carrying its message.
pub open spec fn spec_approval_outcome(answer: Result<ApprovalDecision, String>) -> Result<
    bool,
    ToolCallError,
> {
    match answer {
        Ok(ApprovalDecision::Approved) => Ok(true),
        Ok(ApprovalDecision::Rejected) => Ok(false),
        Err(message) => Err(ToolCallError::Approval(message)),
    }
}

/// What a handler's answer means for the call.
pub fn approval_outcome(answer: Result<ApprovalDecision, String>) -> (r: Result<
    bool,
    ToolCallError,
>)
    ensures
        r == spec_approval_outcome(answer),
{
    match answer {
        Ok(ApprovalDecision::Approved) => Ok(true),
        Ok(ApprovalDecision::Rejected) => Ok(false),
        Err(message) => Err(ToolCallError::Approval(message)),
    }
}

/// Whether the planned call may run. Calls of tools that need no approval
/// (reading and searching files, the todo list) run at once and the handler
/// is not asked. For writes, edits and shell commands the handler is asked
/// once, about the call's identifier, tool name and arguments, and what its
/// answer means is returned: the call runs, it does not, or asking failed.
pub fn approve_tool_call<A: ApprovalHandler>(plan: &ToolCallPlan, handler: &mut A) -> (r: Result<
    bool,
    ToolCallError,
>)
    ensures
        !plan.tool.spec_requires_approval() ==> {
            &&& r == Ok::<bool, ToolCallError>(true)
            &&& *final(handler) == *old(handler)
        },
        plan.tool.spec_requires_approval() ==> exists|answer: Result<ApprovalDecision, String>|
            {
                &&& #[trigger] A::answered(
                    *old(handler),
                    *final(handler),
                    plan.call_id@,
                    plan.name@,
                    plan.arguments@,
                    answer,
                )
                &&& r == spec_approval_outcome(answer)
            },
{
    if plan.tool.requires_approval() {
        let request = approval_request(plan);
        let answer = handler.request_approval(&request);
        approval_outcome(answer)
    } else {
        Ok(true)
    }
}

/// What came of a planned tool call.
pub enum ToolOutcome {
    /// The user rejected the call; the tool did not run.
    Rejected,
    /// The tool ran; the JSON text of its result.
    Succeeded(String),
    /// The tool failed with this message.
    Failed(String),
}

/// The JSON text recorded as a call's output.
pub open spec fn outcome_text(outcome: ToolOutcome) -> Seq<char> {
    match outcome {
        ToolOutcome::Rejected => REJECTED_OUTPUT@,
        ToolOutcome::Succeeded(json) => json@,
        ToolOutcome::Failed(message) => "{\"error\":"@ + json_quoted(message@) + "}"@,
    }
}

/// `item` answers the planned call with `output`: its identifier is the
/// call's with `_output` appended and it names the same call.
pub open spec fn answers(item: AgentEventItem, plan: ToolCallPlan, output: Seq<char>) -> bool {
    item matches AgentEventItem::ToolCallOutput { id, call_id, output: text } && {
        &&& id@ == plan.id@ + "_output"@
        &&& call_id == plan.call_id
        &&& text@ == output
    }
}

/// The item that answers a planned call: its output is the JSON text of the
/// outcome (`{"status":"tool call rejected by user"}`, the result, or
/// `{"error":...}` with the failure's message). A failed tool never fails
/// the call.
pub fn tool_call_output(plan: &ToolCallPlan, outcome: ToolOutcome) -> (r: AgentEventItem)
    ensures
        answers(r, *plan, outcome_text(outcome)),
        forall|item: AgentEventItem| resolves(*plan, item) ==> #[trigger] output_for(r, item),
{
    let output = match outcome {
        ToolOutcome::Rejected => String::from_str(REJECTED_OUTPUT),
        ToolOutcome::Succeeded(json) => json,
        ToolOutcome::Failed(message) => match json_quote(message.as_str()) {
            Some(quoted) => String::from_str("{\"error\":").concat(quoted.as_str()).concat("}"),
            None => String::new(),
        },
    };
    AgentEventItem::ToolCallOutput {
        id: plan.id.clone().concat("_output"),
        call_id: plan.call_id.clone(),
        output,
    }
}

/// What to do with a tool call once the user was asked where that is needed.
pub enum ToolCallStep {
    /// Run the planned call and answer it with `tool_call_output`.
    Run(ToolCallPlan),
    /// The call is answered without running the tool.
    Answered(AgentEventItem),
}

/// The tool call `item` answered with `output`: the answer is the call's
/// (`output_for`) and its text is `output`.
pub open spec fn answers_call(answer: AgentEventItem, item: AgentEventItem, output: Seq<char>) -> bool {
    &&& output_for(answer, item)
    &&& answer matches AgentEventItem::ToolCallOutput { output: text, .. }
    &&& text@ == output
}

/// What a handler's answer makes of the tool call `item`.
pub open spec fn step_after_answer(
    r: Result<ToolCallStep, ToolCallError>,
    item: AgentEventItem,
    answer: Result<ApprovalDecision, String>,
) -> bool {
    match answer {
        Ok(ApprovalDecision::Approved) => r matches Ok(ToolCallStep::Run(p)) && resolves(p, item),
        Ok(ApprovalDecision::Rejected) => r matches Ok(ToolCallStep::Answered(o)) && answers_call(
            o,
            item,
            REJECTED_OUTPUT@,
        ),
        Err(message) => r == Err::<ToolCallStep, ToolCallError>(ToolCallError::Approval(message)),
    }
}

/// Decides on a tool call item before any tool runs. An item that is not a
/// tool call, or names no tool, is an error, and the handler is not asked.
/// A call of a tool that needs no approval is to run, without asking. For
/// writes, edits and shell commands the handler is asked once about the
/// call; on approval the call is to run, on rejection it is answered with
/// `{"status":"tool call rejected by user"}` and the tool never runs, and a
/// failure to ask is returned as the error.
pub fn decide_tool_call<A: ApprovalHandler>(item: &AgentEventItem, handler: &mut A) -> (r: Result<
    ToolCallStep,
    ToolCallError,
>)
    ensures
        match *item {
            AgentEventItem::ToolCall { call_id, name, arguments, .. } => match SystemTools::spec_from_name(
                name@,
            ) {
                None => {
                    &&& r matches Err(ToolCallError::UnknownTool(n)) && n == name
                    &&& *final(handler) == *old(handler)
                },
                Some(t) => if t.spec_requires_approval() {
                    exists|answer: Result<ApprovalDecision, String>|
                        {
                            &&& #[trigger] A::answered(
                                *old(handler),
                                *final(handler),
                                call_id@,
                                name@,
                                arguments@,
                                answer,
                            )
                            &&& step_after_answer(r, *item, answer)
                        }
                } else {
                    &&& r matches Ok(ToolCallStep::Run(p)) && resolves(p, *item)
                    &&& *final(handler) == *old(handler)
                },
            },
            _ => {
                &&& r matches Err(ToolCallError::NotAToolCall)
                &&& *final(handler) == *old(handler)
            },
        },
{
    let plan = match plan_tool_call(item) {
        Ok(p) => p,
        Err(e) => return Err(e),
    };
    let approved = match approve_tool_call(&plan, handler) {
        Ok(b) => b,
        Err(e) => return Err(e),
    };
    if approved {
        Ok(ToolCallStep::Run(plan))
    } else {
        let output = tool_call_output(&plan, ToolOutcome::Rejected);
        Ok(ToolCallStep::Answered(output))
    }
}

} // verus!
