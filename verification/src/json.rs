//! Decisions of the JSON-lines front end.

use vstd::prelude::*;

use crate::approval::ApprovalDecision;
use crate::text::str_eq;

verus! {

/// A command read in JSON-lines mode, tagged by `type`: `prompt`, `approval`, `exit`.
pub enum JsonInput {
    Prompt { text: String },
    Approval { call_id: String, approved: bool },
    Exit,
}

/// What a line read while no tool call waits means, before it is parsed.
#[derive(Debug, Clone, Copy, PartialEq, Eq, Structural)]
pub enum IdleLine {
    /// The input ended: the session is over.
    EndOfInput,
    /// An empty line, answered with an error.
    Empty,
    /// A line to parse as a command.
    Command,
}

/// Classifies a line read (already trimmed) while no tool call waits;
/// `None` is the end of the input.
pub fn idle_line(line: Option<&str>) -> (r: IdleLine)
    ensures
        r == match line {
            None => IdleLine::EndOfInput,
            Some(l) => if l@.len() == 0 {
                IdleLine::Empty
            } else {
                IdleLine::Command
            },
        },
{
    match line {
        None => IdleLine::EndOfInput,
        Some(l) => if l.unicode_len() == 0 {
            IdleLine::Empty
        } else {
            IdleLine::Command
        },
    }
}

/// What a command means while no tool call waits.
pub enum IdleStep {
    /// A prompt: its text starts a turn.
    Prompt(String),
    /// The line is not a command; the parser's message.
    Unparsable(String),
    /// An approval with nothing to approve; it is reported back.
    NoPendingApproval { call_id: String, approved: bool },
    /// Exit: acknowledged, and the session ends.
    Exit,
}

/// Decides on a parsed command (or the parser's error) while no tool call waits.
pub fn idle_command(parsed: Result<JsonInput, String>) -> (r: IdleStep)
    ensures
        match parsed {
            Ok(JsonInput::Prompt { text }) => r matches IdleStep::Prompt(t) && t == text,
            Ok(JsonInput::Approval { call_id, approved }) => r matches IdleStep::NoPendingApproval {
                call_id: c,
                approved: a,
            } && c == call_id && a == approved,
            Ok(JsonInput::Exit) => r is Exit,
            Err(details) => r matches IdleStep::Unparsable(d) && d == details,
        },
{
    match parsed {
        Ok(JsonInput::Prompt { text }) => IdleStep::Prompt(text),
        Ok(JsonInput::Approval { call_id, approved }) => IdleStep::NoPendingApproval { call_id, approved },
        Ok(JsonInput::Exit) => IdleStep::Exit,
        Err(details) => IdleStep::Unparsable(details),
    }
}

/// What a line means while a tool call waits for approval.
pub enum PendingApprovalStep {
    /// The approval for the pending call: its decision.
    Decided(ApprovalDecision),
    /// An approval for another call; the pending call keeps waiting.
    CallIdMismatch { expected: String, received: String },
    /// A prompt; the pending call keeps waiting.
    PromptWhilePending,
    /// An exit; the pending call keeps waiting.
    ExitWhilePending,
    /// The line is not a command (the parser's message); the call keeps waiting.
    Unparsable(String),
}

/// Only an approval naming the pending call decides it, and the end of the
/// input (`None`) rejects it; every other line is answered with an error and
/// the call keeps waiting.
pub fn pending_approval_step(input: Option<Result<JsonInput, String>>, pending_call_id: &str) -> (r:
    PendingApprovalStep)
    ensures
        match input {
            None => r == PendingApprovalStep::Decided(ApprovalDecision::Rejected),
            Some(Err(details)) => r matches PendingApprovalStep::Unparsable(d) && d == details,
            Some(Ok(JsonInput::Approval { call_id, approved })) => if call_id@ == pending_call_id@ {
                r == PendingApprovalStep::Decided(
                    if approved {
                        ApprovalDecision::Approved
                    } else {
                        ApprovalDecision::Rejected
                    },
                )
            } else {
                r matches PendingApprovalStep::CallIdMismatch { expected, received }
                    && expected@ == pending_call_id@ && received == call_id
            },
            Some(Ok(JsonInput::Prompt { .. })) => r == PendingApprovalStep::PromptWhilePending,
            Some(Ok(JsonInput::Exit)) => r == PendingApprovalStep::ExitWhilePending,
        },
{
    match input {
        None => PendingApprovalStep::Decided(ApprovalDecision::Rejected),
        Some(Err(details)) => PendingApprovalStep::Unparsable(details),
        Some(Ok(JsonInput::Approval { call_id, approved })) => {
            if str_eq(call_id.as_str(), pending_call_id) {
                PendingApprovalStep::Decided(
                    if approved {
                        ApprovalDecision::Approved
                    } else {
                        ApprovalDecision::Rejected
                    },
                )
            } else {
                PendingApprovalStep::CallIdMismatch {
                    expected: String::from_str(pending_call_id),
                    received: call_id,
                }
            }
        },
        Some(Ok(JsonInput::Prompt { .. })) => PendingApprovalStep::PromptWhilePending,
        Some(Ok(JsonInput::Exit)) => PendingApprovalStep::ExitWhilePending,
    }
}

} // verus!
