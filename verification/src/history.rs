//! What a session holds after a run of requests, and when it is signed
//! in.
use crate::handlers::auth::signout_handler::session_after_signout;
use crate::handlers::oauth::callback_handler::{callback_failure, session_after_callback};
use crate::models::oauth::OAuthSessionDataView;
use crate::session::SessionView;
use crate::upstream::HttpOutcomeView;
use vstd::prelude::*;

verus! {

/// A request that changes a session.
pub enum SessionEvent {
    /// A login that kept this data for its callback.
    Login(OAuthSessionDataView),
    /// A callback with this `state`, whose exchange, if it got that far,
    /// was answered like this.
    Callback { state: Seq<char>, outcome: HttpOutcomeView },
    /// A signout.
    Signout,
    /// A preview or a commit, after which the slot of the kept
    /// configuration holds this.
    Kept(Option<Seq<char>>),
}

/// The session after one request.
pub open spec fn step(session: SessionView, event: SessionEvent) -> SessionView {
    match event {
        SessionEvent::Login(data) => SessionView { oauth_data: Some(data), ..session },
        SessionEvent::Callback { state, outcome } => session_after_callback(
            session,
            state,
            outcome,
        ),
        SessionEvent::Signout => session_after_signout(session),
        SessionEvent::Kept(kept) => SessionView { auth: kept, ..session },
    }
}

/// The session after a run of requests, the first one first.
pub open spec fn after(session: SessionView, events: Seq<SessionEvent>) -> SessionView
    decreases events.len(),
{
    if events.len() == 0 {
        session
    } else {
        step(after(session, events.drop_last()), events.last())
    }
}

/// Whether the request at a place is a callback that ended in a login.
pub open spec fn logged_in_at(session: SessionView, events: Seq<SessionEvent>, i: int) -> bool {
    0 <= i < events.len() && match events[i] {
        SessionEvent::Callback { state, outcome } => callback_failure(
            after(session, events.subrange(0, i)),
            state,
            outcome,
        ) is None,
        _ => false,
    }
}

/// Whether no signout follows a place.
pub open spec fn no_signout_since(events: Seq<SessionEvent>, i: int) -> bool {
    forall|j: int| i < j < events.len() ==> !(#[trigger] events[j] is Signout)
}

/// Whether no callback follows a place.
pub open spec fn no_callback_since(events: Seq<SessionEvent>, i: int) -> bool {
    forall|j: int| i < j < events.len() ==> !(#[trigger] events[j] is Callback)
}

/// Whether some callback ended in a login and no signout followed it.
pub open spec fn login_stands(session: SessionView, events: Seq<SessionEvent>) -> bool {
    exists|i: int| #[trigger] logged_in_at(session, events, i) && no_signout_since(events, i)
}

/// Whether the last callback ended in a login and no signout followed it.
pub open spec fn last_callback_stands(session: SessionView, events: Seq<SessionEvent>) -> bool {
    exists|i: int|
        #[trigger] logged_in_at(session, events, i) && no_signout_since(events, i)
            && no_callback_since(events, i)
}

/// Whether every callback that failed after one that ended in a login had
/// a signout between the two.
pub open spec fn no_failure_on_a_login(session: SessionView, events: Seq<SessionEvent>) -> bool {
    forall|i: int, j: int|
        #![trigger logged_in_at(session, events, i), events[j]]
        logged_in_at(session, events, i) && i < j < events.len() && events[j] is Callback
            && !logged_in_at(session, events, j) ==> !no_signout_since(
            events.subrange(0, j),
            i,
        )
}

/// Whether a place ended in a login does not depend on what follows it.
proof fn lemma_logged_in_prefix(session: SessionView, events: Seq<SessionEvent>, i: int)
    requires
        0 <= i < events.len() - 1,
    ensures
        logged_in_at(session, events, i) == logged_in_at(session, events.drop_last(), i),
{
    assert(events.subrange(0, i) =~= events.drop_last().subrange(0, i));
}

/// On a session that held no token at first, the token slot is set
/// exactly if some callback ended in a login and no signout followed it.
pub proof fn lemma_token_iff_login_stands(session: SessionView, events: Seq<SessionEvent>)
    requires
        session.supabase_access_token is None,
    ensures
        after(session, events).supabase_access_token is Some <==> login_stands(session, events),
    decreases events.len(),
{
    if events.len() == 0 {
        if login_stands(session, events) {
            let i = choose|i: int| #[trigger]
                logged_in_at(session, events, i) && no_signout_since(events, i);
            assert(false);
        }
    } else {
        let prev = events.drop_last();
        let last = events.len() - 1;
        lemma_token_iff_login_stands(session, prev);
        assert(events.subrange(0, last) =~= prev);
        if login_stands(session, prev) && !(events[last] is Signout) {
            let i = choose|i: int| #[trigger]
                logged_in_at(session, prev, i) && no_signout_since(prev, i);
            lemma_logged_in_prefix(session, events, i);
            assert(no_signout_since(events, i)) by {
                assert forall|j: int| i < j < events.len() implies !(#[trigger] events[j]
                    is Signout) by {
                    if j < last {
                        assert(prev[j] == events[j]);
                    }
                }
            }
            assert(logged_in_at(session, events, i) && no_signout_since(events, i));
        }
        if logged_in_at(session, events, last) {
            assert(logged_in_at(session, events, last) && no_signout_since(events, last));
        }
        if login_stands(session, events) {
            let i = choose|i: int| #[trigger]
                logged_in_at(session, events, i) && no_signout_since(events, i);
            if i < last {
                assert(!(events[last] is Signout));
                lemma_logged_in_prefix(session, events, i);
                assert(no_signout_since(prev, i)) by {
                    assert forall|j: int| i < j < prev.len() implies !(#[trigger] prev[j]
                        is Signout) by {
                        assert(prev[j] == events[j]);
                    }
                }
                assert(logged_in_at(session, prev, i) && no_signout_since(prev, i));
            }
        }
    }
}

/// From any callback on there is a last callback.
proof fn lemma_last_callback(events: Seq<SessionEvent>, i: int) -> (l: int)
    requires
        0 <= i < events.len(),
        events[i] is Callback,
    ensures
        i <= l < events.len(),
        events[l] is Callback,
        no_callback_since(events, l),
    decreases events.len() - i,
{
    if no_callback_since(events, i) {
        i
    } else {
        let j = choose|j: int| i < j < events.len() && #[trigger] events[j] is Callback;
        lemma_last_callback(events, j)
    }
}

/// On a session that held no token at first, and in a run in which no
/// callback failed on a session that was signed in, the token slot is set
/// exactly if the last callback ended in a login and no signout has
/// followed it.
pub proof fn lemma_token_iff_last_callback_stands(
    session: SessionView,
    events: Seq<SessionEvent>,
)
    requires
        session.supabase_access_token is None,
        no_failure_on_a_login(session, events),
    ensures
        after(session, events).supabase_access_token is Some <==> last_callback_stands(
            session,
            events,
        ),
{
    lemma_token_iff_login_stands(session, events);
    if last_callback_stands(session, events) {
        let i = choose|i: int| #[trigger]
            logged_in_at(session, events, i) && no_signout_since(events, i) && no_callback_since(
                events,
                i,
            );
        assert(logged_in_at(session, events, i) && no_signout_since(events, i));
    }
    if login_stands(session, events) {
        let i = choose|i: int| #[trigger]
            logged_in_at(session, events, i) && no_signout_since(events, i);
        let l = lemma_last_callback(events, i);
        if l > i && !logged_in_at(session, events, l) {
            let cut = events.subrange(0, l);
            assert(!no_signout_since(cut, i));
            let j = choose|j: int| i < j < cut.len() && #[trigger] cut[j] is Signout;
            assert(events[j] is Signout);
        }
        assert(no_signout_since(events, l)) by {
            assert forall|j: int| l < j < events.len() implies !(#[trigger] events[j]
                is Signout) by {}
        }
        assert(logged_in_at(session, events, l) && no_signout_since(events, l)
            && no_callback_since(events, l));
    }
}

} // verus!
