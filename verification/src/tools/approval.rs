//! The yes/no confirmation prompt for a tool call.

use vstd::prelude::*;

use crate::text::{ascii_lowercase, ascii_lowercase_chars, chars_eq, chars_of, trim, trim_chars};

verus! {

/// Whether a reply confirms: `yes`, ignoring surrounding whitespace and ASCII case.
pub open spec fn spec_confirms(line: Seq<char>) -> bool {
    ascii_lowercase(trim(line)) == seq!['y', 'e', 's']
}

/// Whether a reply to `REPLY YES TO RUN, NO TO REJECT` confirms.
pub fn confirms(line: &str) -> (r: bool)
    ensures
        r == spec_confirms(line@),
{
    let c = chars_of(line);
    let t = trim_chars(c.as_slice());
    let l = ascii_lowercase_chars(t.as_slice());
    let yes = vec!['y', 'e', 's'];
    assert(yes@ =~= seq!['y', 'e', 's']);
    chars_eq(l.as_slice(), yes.as_slice())
}

} // verus!
