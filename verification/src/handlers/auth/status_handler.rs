//! Whether a session is signed in.
use crate::models::app_config::AppState;
use crate::session::{SessionRead, SessionRecord};
use vstd::prelude::*;

verus! {

/// The body that reports whether a token is held.
pub open spec fn status_text(signed_in: bool) -> Seq<char> {
    if signed_in {
        "true"@
    } else {
        "false"@
    }
}

/// The body of the status reply from what reading the token slot gave:
/// `true` where a token was read, `false` where there is none or the store
/// failed. The token itself is never part of the reply.
pub fn status_reply(read: &SessionRead<String>) -> (r: &'static str)
    ensures
        r@ == status_text(read is Present),
{
    match read {
        SessionRead::Present(_) => "true",
        _ => "false",
    }
}

/// Whether the session record is signed in, as the body of the status
/// reply.
pub fn status_handler(app_state: &AppState, session: &SessionRecord) -> (r: &'static str)
    ensures
        r@ == status_text(session@.supabase_access_token is Some),
{
    match &session.supabase_access_token {
        Some(_) => "true",
        None => "false",
    }
}

} // verus!
