//! Signing a session out.
use crate::models::app_config::AppState;
use crate::session::{SessionRead, SessionRecord, SessionView};
use vstd::prelude::*;

verus! {

/// The status of a reply.
#[derive(Debug, Clone, Copy, PartialEq, Eq, Structural)]
pub enum Status {
    Success,
    BadRequest,
    InternalServerError,
}

impl Status {
    /// The number of the status.
    pub open spec fn number(self) -> u16 {
        match self {
            Status::Success => 200,
            Status::BadRequest => 400,
            Status::InternalServerError => 500,
        }
    }

    /// The number of the status.
    pub fn code(&self) -> (r: u16)
        ensures
            r == self.number(),
    {
        match self {
            Status::Success => 200,
            Status::BadRequest => 400,
            Status::InternalServerError => 500,
        }
    }
}

/// What follows the reading of the token slot.
#[derive(Debug, Clone, Copy, PartialEq, Eq, Structural)]
pub enum SignoutStep {
    /// Nothing is removed: reply with this status.
    Reply(Status),
    /// The token is to be removed from the session.
    RemoveToken,
}

/// Decides what follows the reading of the token slot: a token that is
/// there is to be removed; without one the user was not signed in, and a
/// failure of the store is reported as such.
pub fn signout_begin(read: &SessionRead<String>) -> (step: SignoutStep)
    ensures
        step == match *read {
            SessionRead::Present(_) => SignoutStep::RemoveToken,
            SessionRead::Absent => SignoutStep::Reply(Status::BadRequest),
            SessionRead::Failed => SignoutStep::Reply(Status::InternalServerError),
        },
{
    match read {
        SessionRead::Present(_) => SignoutStep::RemoveToken,
        SessionRead::Absent => SignoutStep::Reply(Status::BadRequest),
        SessionRead::Failed => SignoutStep::Reply(Status::InternalServerError),
    }
}

/// The status that reports whether the token could be removed.
pub fn signout_removed(removed: bool) -> (status: Status)
    ensures
        status == if removed {
            Status::Success
        } else {
            Status::InternalServerError
        },
{
    if removed {
        Status::Success
    } else {
        Status::InternalServerError
    }
}

/// The session after a signout: the token slot is empty.
pub open spec fn session_after_signout(session: SessionView) -> SessionView {
    SessionView { supabase_access_token: None, ..session }
}

/// The status of a signout on this session.
pub open spec fn signout_status(session: SessionView) -> Status {
    if session.supabase_access_token is Some {
        Status::Success
    } else {
        Status::BadRequest
    }
}

/// After a signout the session holds no token, whatever it held before.
pub proof fn lemma_signout_clears_token(session: SessionView)
    ensures
        session_after_signout(session).supabase_access_token is None,
        session_after_signout(session).oauth_data == session.oauth_data,
        session_after_signout(session).auth == session.auth,
{
}

/// Signs the session record out: removes the token, if there is one, and
/// says whether there was.
pub fn signout_handler(app_state: &AppState, session: &mut SessionRecord) -> (status: Status)
    ensures
        final(session)@ == session_after_signout(old(session)@),
        status == signout_status(old(session)@),
{
    let read = match &session.supabase_access_token {
        Some(token) => SessionRead::Present(token.clone()),
        None => SessionRead::Absent,
    };
    match signout_begin(&read) {
        SignoutStep::Reply(status) => status,
        SignoutStep::RemoveToken => {
            session.supabase_access_token = None;
            signout_removed(true)
        },
    }
}

} // verus!
