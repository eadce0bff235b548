//! Commit: send the configuration that the preview kept to the
//! destination, stripped of what the destination would refuse.
use crate::json::{json_document, object_text, parse_document, JsonDocumentView};
use crate::models::app_config::AppState;
use crate::models::auth_config::AuthConfigStruct;
use crate::models::migrate::MigrateProjectStruct;
use crate::session::{SessionRead, SessionRecord, SessionView};
use crate::text::{concat2, result_text};
use crate::upstream::{api_url, auth_config_path, auth_config_url, bearer, is_success, patch_request, status_is_success, ApiMethod, ApiRequest, ApiRequestView, HttpOutcome, HttpOutcomeView, UNAUTHORIZED};
use vstd::prelude::*;

verus! {

/// The JSON text that is sent for a configuration text that was kept: the
/// configuration it holds, stripped of its mail settings unless a server
/// of the tenant's own is set up, with what is unset left out. There is
/// none where the text cannot be read as a configuration.
pub open spec fn patch_body(kept: Seq<char>) -> Option<Seq<char>> {
    match json_document(kept) {
        Some(JsonDocumentView::Object(members)) => if AuthConfigStruct::decodable(members) {
            Some(object_text(AuthConfigStruct::config_of(members).sanitized().members()))
        } else {
            None
        },
        _ => None,
    }
}

/// The contents of what was read from a slot that holds a text.
pub open spec fn text_read_view(read: SessionRead<String>) -> SessionRead<Seq<char>> {
    match read {
        SessionRead::Failed => SessionRead::Failed,
        SessionRead::Absent => SessionRead::Absent,
        SessionRead::Present(t) => SessionRead::Present(t@),
    }
}

/// The request of a commit, or why there is none: the slot holds no
/// configuration, or what it holds cannot be read as one.
pub open spec fn commit_request(
    dest_id: Seq<char>,
    token: Seq<char>,
    kept: SessionRead<Seq<char>>,
) -> Result<ApiRequestView, Seq<char>> {
    match kept {
        SessionRead::Present(text) => match patch_body(text) {
            Some(body) => Ok(
                ApiRequestView {
                    method: ApiMethod::Patch,
                    url: api_url(auth_config_path(dest_id)),
                    authorization: bearer(token),
                    body: Some(body),
                },
            ),
            None => Err("Error parsing session auth config"@),
        },
        _ => Err("Error getting Auth config from session"@),
    }
}

/// What the commit answers once the request was sent.
pub open spec fn commit_reply(outcome: HttpOutcomeView) -> Result<Seq<char>, Seq<char>> {
    match outcome {
        HttpOutcomeView::TransportFailed(why) => Err("Error sending patch request: "@ + why),
        HttpOutcomeView::Replied { status, body } => if is_success(status) {
            Ok(Seq::empty())
        } else {
            Err("Error migrating auth config"@)
        },
    }
}

/// The request that commits the Auth domain, from what reading the slot
/// of the kept configuration gave.
pub fn migrate_request(params: &MigrateProjectStruct, token: &String, kept: SessionRead<String>) -> (r:
    Result<ApiRequest, String>)
    ensures
        match commit_request(params.dest_id@, token@, text_read_view(kept)) {
            Ok(request) => r is Ok && r->Ok_0@ == request,
            Err(e) => r is Err && r->Err_0@ == e,
        },
{
    let auth_json = match kept {
        SessionRead::Present(text) => text,
        _ => {
            return Err("Error getting Auth config from session".to_owned());
        },
    };
    let document = match parse_document(auth_json.as_str()) {
        Some(d) => d,
        None => {
            return Err("Error parsing session auth config".to_owned());
        },
    };
    let auth_config = match AuthConfigStruct::from_document(&document) {
        Some(c) => c,
        None => {
            return Err("Error parsing session auth config".to_owned());
        },
    };
    proof {
        auth_config.lemma_config_of(document@->Object_0);
    }
    let patched_config = auth_config.remove_smtp_fields_if_disabled();
    let patched_json = patched_config.to_json();
    let auth_url = auth_config_url(params.dest_id.as_str());
    Ok(patch_request(token.as_str(), auth_url.as_str(), patched_json))
}

/// What the commit answers once the request was sent. By then the kept
/// configuration is to be removed from the session, whatever came of the
/// request.
pub fn migrate_complete(outcome: HttpOutcome) -> (r: Result<String, String>)
    ensures
        result_text(r) == commit_reply(outcome@),
{
    match outcome {
        HttpOutcome::TransportFailed(why) => Err(
            concat2("Error sending patch request: ", why.as_str()),
        ),
        HttpOutcome::Replied { status, body } => if status_is_success(status) {
            Ok(String::new())
        } else {
            Err("Error migrating auth config".to_owned())
        },
    }
}

/// The request that a commit on this session sends, if it sends one.
pub open spec fn migrate_sends(session: SessionView, dest_id: Seq<char>, auth: bool) -> Option<
    ApiRequestView,
> {
    if session.supabase_access_token is Some && auth {
        let kept = match session.auth {
            Some(text) => SessionRead::Present(text),
            None => SessionRead::Absent,
        };
        match commit_request(dest_id, session.supabase_access_token->0, kept) {
            Ok(request) => Some(request),
            Err(_) => None,
        }
    } else {
        None
    }
}

/// What a commit on this session answers.
pub open spec fn migrate_reply(
    session: SessionView,
    dest_id: Seq<char>,
    auth: bool,
    outcome: HttpOutcomeView,
) -> Result<Seq<char>, Seq<char>> {
    if session.supabase_access_token is None {
        Err(UNAUTHORIZED@)
    } else if !auth {
        Ok(Seq::empty())
    } else {
        let kept = match session.auth {
            Some(text) => SessionRead::Present(text),
            None => SessionRead::Absent,
        };
        match commit_request(dest_id, session.supabase_access_token->0, kept) {
            Ok(_) => commit_reply(outcome),
            Err(e) => Err(e),
        }
    }
}

/// The session after a commit: once a request was sent, the kept
/// configuration is gone, whatever came of the request.
pub open spec fn session_after_migrate(session: SessionView, dest_id: Seq<char>, auth: bool) -> SessionView {
    if migrate_sends(session, dest_id, auth) is Some {
        SessionView { auth: None, ..session }
    } else {
        session
    }
}

/// A commit can be made once: after one that sent its request, a second
/// one finds no configuration in the session.
pub proof fn lemma_migrate_is_single_use(
    session: SessionView,
    dest_id: Seq<char>,
    first: HttpOutcomeView,
    second: HttpOutcomeView,
)
    requires
        migrate_sends(session, dest_id, true) is Some,
    ensures
        migrate_reply(session_after_migrate(session, dest_id, true), dest_id, true, second) == Err::<
            Seq<char>,
            Seq<char>,
        >("Error getting Auth config from session"@),
{
}

/// The commit on a session record, given what the request comes to should
/// it be sent.
pub fn migrate_handler(
    app_state: &AppState,
    params: &MigrateProjectStruct,
    session: &mut SessionRecord,
    outcome: HttpOutcome,
) -> (r: Result<String, String>)
    ensures
        result_text(r) == migrate_reply(old(session)@, params.dest_id@, params.auth, outcome@),
        final(session)@ == session_after_migrate(old(session)@, params.dest_id@, params.auth),
{
    let token = match &session.supabase_access_token {
        Some(t) => t.clone(),
        None => {
            return Err(UNAUTHORIZED.to_owned());
        },
    };
    if params.auth {
        let kept = match &session.auth {
            Some(text) => SessionRead::Present(text.clone()),
            None => SessionRead::Absent,
        };
        match migrate_request(params, &token, kept) {
            Ok(_) => {},
            Err(e) => {
                return Err(e);
            },
        }
        session.auth = None;
        return migrate_complete(outcome);
    }
    Ok(String::new())
}

} // verus!
