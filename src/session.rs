//! The login session that the daemon serves.
use vstd::prelude::*;
use crate::text::str_equals;

verus! {

/// A resolved login session: its id and the bus object path of the
/// session manager's object for it.
#[derive(Clone, Debug)]
pub struct SessionInfo {
    pub id: String,
    pub path: String,
}

/// Session types that run a graphical display.
pub open spec fn is_graphical_type(session_type: Seq<char>) -> bool {
    session_type == "x11"@ || session_type == "wayland"@
}

/// Whether a session of type `session_type` is one the daemon may serve.
pub fn is_graphical(session_type: &str) -> (r: bool)
    ensures
        r == is_graphical_type(session_type@),
{
    str_equals(session_type, "x11") || str_equals(session_type, "wayland")
}

} // verus!
