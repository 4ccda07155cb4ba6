//! Decisions of the interactive terminal front end.

use vstd::prelude::*;

use crate::approval::ApprovalDecision;
use crate::text::{ascii_lowercase, ascii_lowercase_chars, chars_eq, chars_of, trim, trim_chars};

verus! {

/// What a reply to `Allow this tool call? [y/N]` means: `y`/`yes` approve,
/// `n`/`no`/nothing reject (ignoring surrounding whitespace and ASCII case),
/// anything else asks again.
pub open spec fn spec_approval_reply(line: Seq<char>) -> Option<ApprovalDecision> {
    let t = ascii_lowercase(trim(line));
    if t == seq!['y'] || t == seq!['y', 'e', 's'] {
        Some(ApprovalDecision::Approved)
    } else if t == seq!['n'] || t == seq!['n', 'o'] || t.len() == 0 {
        Some(ApprovalDecision::Rejected)
    } else {
        None
    }
}

/// What a typed reply to an approval prompt decides; `None` asks again.
pub fn approval_reply(line: &str) -> (r: Option<ApprovalDecision>)
    ensures
        r == spec_approval_reply(line@),
{
    let c = chars_of(line);
    let t = trim_chars(c.as_slice());
    let l = ascii_lowercase_chars(t.as_slice());
    let y = vec!['y'];
    let yes = vec!['y', 'e', 's'];
    let n = vec!['n'];
    let no = vec!['n', 'o'];
    assert(y@ =~= seq!['y']);
    assert(yes@ =~= seq!['y', 'e', 's']);
    assert(n@ =~= seq!['n']);
    assert(no@ =~= seq!['n', 'o']);
    if chars_eq(l.as_slice(), y.as_slice()) || chars_eq(l.as_slice(), yes.as_slice()) {
        Some(ApprovalDecision::Approved)
    } else if chars_eq(l.as_slice(), n.as_slice()) || chars_eq(l.as_slice(), no.as_slice())
        || l.len() == 0 {
        Some(ApprovalDecision::Rejected)
    } else {
        None
    }
}

/// What the reply to an approval prompt decides, where `None` is the end of
/// the input: that rejects the call; `None` in the result asks again.
pub fn approval_input(line: Option<&str>) -> (r: Option<ApprovalDecision>)
    ensures
        r == match line {
            None => Some(ApprovalDecision::Rejected),
            Some(l) => spec_approval_reply(l@),
        },
{
    match line {
        None => Some(ApprovalDecision::Rejected),
        Some(l) => approval_reply(l),
    }
}

/// What a line typed at the prompt asks for.
#[derive(Debug, Clone, Copy, PartialEq, Eq, Structural)]
pub enum InputAction {
    Exit,
    Empty,
    Prompt,
}

/// `exit` ends the session, an empty line is refused, anything else is a prompt.
pub fn input_action(input: &str) -> (r: InputAction)
    ensures
        r == (if input@ == seq!['e', 'x', 'i', 't'] {
            InputAction::Exit
        } else if input@.len() == 0 {
            InputAction::Empty
        } else {
            InputAction::Prompt
        }),
{
    let c = chars_of(input);
    let exit = vec!['e', 'x', 'i', 't'];
    assert(exit@ =~= seq!['e', 'x', 'i', 't']);
    if chars_eq(c.as_slice(), exit.as_slice()) {
        InputAction::Exit
    } else if c.len() == 0 {
        InputAction::Empty
    } else {
        InputAction::Prompt
    }
}

} // verus!
