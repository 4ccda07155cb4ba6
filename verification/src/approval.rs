//! Approval of tool calls that change files or run commands.

use vstd::prelude::*;

verus! {

/// A tool call waiting for the user's decision.
pub struct ApprovalRequest<'a> {
    pub call_id: &'a str,
    pub tool_name: &'a str,
    pub arguments: &'a str,
}

/// The user's decision on a tool call.
#[derive(Debug, Clone, Copy, PartialEq, Eq, Structural)]
pub enum ApprovalDecision {
    Approved,
    Rejected,
}

/// Asks the user to decide on a tool call; implemented by each front end.
/// An error carries the message of a failure to ask.
pub trait ApprovalHandler: Sized {
    /// Asking a handler in state `before` about the call `call_id` of the
    /// tool `tool_name` with `arguments` may give `answer` and leave it in
    /// state `after`. A handler that says nothing of itself may give any
    /// answer, since a person decides.
    open spec fn answered(
        before: Self,
        after: Self,
        call_id: Seq<char>,
        tool_name: Seq<char>,
        arguments: Seq<char>,
        answer: Result<ApprovalDecision, String>,
    ) -> bool {
        true
    }

    /// Asks about `request`; what comes back is an answer of `answered`.
    fn request_approval(&mut self, request: &ApprovalRequest<'_>) -> (r: Result<ApprovalDecision, String>)
        ensures
            Self::answered(
                *old(self),
                *final(self),
                request.call_id@,
                request.tool_name@,
                request.arguments@,
                r,
            ),
    ;
}

} // verus!
