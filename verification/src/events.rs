//! Where a session's events are logged.

use vstd::prelude::*;

verus! {

/// Why a session log cannot be written.
#[derive(Debug, Clone, Copy, PartialEq, Eq, Structural)]
pub enum SessionError {
    /// The session has no identifier.
    SessionIdRequired,
}

/// The name of the session's log file, `<session_id>.jsonl`; a session
/// without an identifier has none.
pub fn session_log_file_name(session_id: &str) -> (r: Result<String, SessionError>)
    ensures
        session_id@.len() == 0 ==> r == Err::<String, SessionError>(SessionError::SessionIdRequired),
        session_id@.len() > 0 ==> (r matches Ok(name) && name@ == session_id@ + ".jsonl"@),
{
    if session_id.is_empty() {
        Err(SessionError::SessionIdRequired)
    } else {
        Ok(String::from_str(session_id).concat(".jsonl"))
    }
}

} // verus!
