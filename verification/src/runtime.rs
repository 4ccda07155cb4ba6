//! How a run is configured from the command line.

use vstd::prelude::*;

use crate::parser::EffortLevel;
use crate::text::str_eq;

verus! {

/// The front end a session runs in.
#[derive(Debug, Clone, Copy, PartialEq, Eq, Structural)]
pub enum RunMode {
    Interactive,
    JsonStream,
}

/// The effort level that `--effort` names; other words select none.
pub open spec fn spec_effort(name: Seq<char>) -> Option<EffortLevel> {
    if name == "minimal"@ {
        Some(EffortLevel::Minimal)
    } else if name == "low"@ {
        Some(EffortLevel::Low)
    } else if name == "medium"@ {
        Some(EffortLevel::Medium)
    } else if name == "high"@ {
        Some(EffortLevel::High)
    } else {
        None
    }
}

/// The effort level that `--effort` names, if any.
pub fn effort_from_name(name: &str) -> (r: Option<EffortLevel>)
    ensures
        r == spec_effort(name@),
{
    if str_eq(name, "minimal") {
        Some(EffortLevel::Minimal)
    } else if str_eq(name, "low") {
        Some(EffortLevel::Low)
    } else if str_eq(name, "medium") {
        Some(EffortLevel::Medium)
    } else if str_eq(name, "high") {
        Some(EffortLevel::High)
    } else {
        None
    }
}

} // verus!
