//! Preview: fetch the Auth configuration of source and destination, show
//! what differs, and keep the source text for the commit.
use crate::handlers::migrate::config_diff::{is_diff, json_diff};
use crate::json::{json_document, parse_document, JsonDocumentView, JsonMemberView};
use crate::models::app_config::AppState;
use crate::models::auth_config::AuthConfigStruct;
use crate::models::migrate::ProjectDiffs;
use crate::session::{SessionRecord, SessionView};
use crate::text::{concat2, result_text};
use crate::upstream::{api_url, auth_config_path, auth_config_url, bearer, get_request, is_success, status_is_success, ApiMethod, ApiRequest, ApiRequestView, HttpOutcome, HttpOutcomeView, UNAUTHORIZED};
use vstd::prelude::*;

verus! {

/// The query of a preview request. Only `auth` is acted on; the other
/// flags are accepted and ignored.
#[derive(Debug)]
pub struct PreviewQuery {
    pub source_id: String,
    pub dest_id: String,
    pub auth: bool,
    pub postgrest: bool,
    pub edge_functions: bool,
    pub secrets: bool,
    pub postgres: bool,
}

/// The reply to a preview: the diffs, one for each domain that was asked
/// for.
#[derive(Debug)]
pub struct PreviewResponse {
    pub configs: Vec<ProjectDiffs>,
}

/// What a read of the Management API gives its caller. A reply is handed
/// on as text whatever its status: the body of one that reports success as
/// it is, the body of any other behind the words `HTTP error - `. Only a
/// request that got no reply, or a body that could not be read, is an
/// error.
pub open spec fn fetched(outcome: HttpOutcomeView) -> Result<Seq<char>, Seq<char>> {
    match outcome {
        HttpOutcomeView::TransportFailed(_) => Err("Error getting response from API"@),
        HttpOutcomeView::Replied { status, body: None } => Err(
            "Error reading response body as text"@,
        ),
        HttpOutcomeView::Replied { status, body: Some(text) } => if is_success(status) {
            Ok(text)
        } else {
            Ok("HTTP error - "@ + text)
        },
    }
}

/// The request that reads a path of the Management API with a token.
pub fn mgmt_api_request(token: &String, url: String) -> (r: ApiRequest)
    ensures
        r@ == (ApiRequestView {
            method: ApiMethod::Get,
            url: api_url(url@),
            authorization: bearer(token@),
            body: None,
        }),
{
    get_request(token.as_str(), url.as_str())
}

/// What a read of the Management API gives its caller, from what came of
/// sending the request.
pub fn mgmt_api_get(outcome: HttpOutcome) -> (r: Result<String, String>)
    ensures
        result_text(r) == fetched(outcome@),
{
    match outcome {
        HttpOutcome::TransportFailed(_) => Err("Error getting response from API".to_owned()),
        HttpOutcome::Replied { status, body } => match body {
            None => Err("Error reading response body as text".to_owned()),
            Some(text) => if status_is_success(status) {
                Ok(text)
            } else {
                Ok(concat2("HTTP error - ", text.as_str()))
            },
        },
    }
}

/// The members that encode the configuration which a JSON text holds, if
/// the text is an object that can be read as a configuration: the settings
/// that are set, without keys that are not known.
pub open spec fn config_members(text: Seq<char>) -> Option<Seq<JsonMemberView>> {
    match json_document(text) {
        Some(JsonDocumentView::Object(members)) => if AuthConfigStruct::decodable(members) {
            Some(AuthConfigStruct::config_of(members).members())
        } else {
            None
        },
        _ => None,
    }
}

/// Why there is no diff of the two configurations, if there is none.
pub open spec fn diff_failure(source: HttpOutcomeView, dest: HttpOutcomeView) -> Option<
    Seq<char>,
> {
    if fetched(source) is Err {
        Some("Error fetching source auth config"@)
    } else if fetched(dest) is Err {
        Some("Error fetching destination auth config"@)
    } else if config_members(fetched(source)->Ok_0) is None {
        Some("Error parsing source auth config"@)
    } else if config_members(fetched(dest)->Ok_0) is None {
        Some("Error parsing destination auth config"@)
    } else {
        None
    }
}

/// The configuration that a fetched text holds.
fn read_config(text: &str) -> (r: Option<AuthConfigStruct>)
    ensures
        match r {
            Some(c) => config_members(text@) == Some(c.members()),
            None => config_members(text@) is None,
        },
{
    let document = match parse_document(text) {
        Some(d) => d,
        None => {
            return None;
        },
    };
    let config = AuthConfigStruct::from_document(&document);
    proof {
        if config is Some {
            config->0.lemma_config_of(document@->Object_0);
        }
    }
    config
}

/// The two requests of a preview of the Auth domain: one for the
/// configuration of the source, one for that of the destination.
pub fn preview_requests(params: &PreviewQuery, token: &String) -> (r: (ApiRequest, ApiRequest))
    ensures
        r.0@ == (ApiRequestView {
            method: ApiMethod::Get,
            url: api_url(auth_config_path(params.source_id@)),
            authorization: bearer(token@),
            body: None,
        }),
        r.1@ == (ApiRequestView {
            method: ApiMethod::Get,
            url: api_url(auth_config_path(params.dest_id@)),
            authorization: bearer(token@),
            body: None,
        }),
{
    let src_url = auth_config_url(params.source_id.as_str());
    let dest_url = auth_config_url(params.dest_id.as_str());
    (mgmt_api_request(token, src_url), mgmt_api_request(token, dest_url))
}

/// The diff of the two configurations that were fetched, under the label
/// `Auth`, together with the text of the source, which is to be kept in
/// the session for the commit.
pub fn diff_configs(source: HttpOutcome, dest: HttpOutcome) -> (r: Result<
    (ProjectDiffs, String),
    String,
>)
    ensures
        match diff_failure(source@, dest@) {
            Some(e) => r is Err && r->Err_0@ == e,
            None => r is Ok && r->Ok_0.0@.name == "Auth"@ && is_diff(
                r->Ok_0.0@.diffs,
                config_members(fetched(source@)->Ok_0)->0,
                config_members(fetched(dest@)->Ok_0)->0,
            ) && r->Ok_0.1@ == fetched(source@)->Ok_0,
        },
{
    let src_cfg = match mgmt_api_get(source) {
        Ok(text) => text,
        Err(_) => {
            return Err("Error fetching source auth config".to_owned());
        },
    };
    let dest_cfg = match mgmt_api_get(dest) {
        Ok(text) => text,
        Err(_) => {
            return Err("Error fetching destination auth config".to_owned());
        },
    };
    let source_config = match read_config(src_cfg.as_str()) {
        Some(c) => c,
        None => {
            return Err("Error parsing source auth config".to_owned());
        },
    };
    let dest_config = match read_config(dest_cfg.as_str()) {
        Some(c) => c,
        None => {
            return Err("Error parsing destination auth config".to_owned());
        },
    };
    match json_diff(
        "Auth".to_owned(),
        &source_config.to_document(),
        &dest_config.to_document(),
    ) {
        Some(entry) => Ok((entry, src_cfg)),
        None => Err("Error parsing auth config diffs".to_owned()),
    }
}

/// Fetch outcomes in hand, adds the diff of the Auth domain to the list
/// and keeps the text of the source in the session record. On a failure
/// neither the list nor the session changes.
pub fn process_config_diffs(
    session: &mut SessionRecord,
    source: HttpOutcome,
    dest: HttpOutcome,
    project_config: &mut Vec<ProjectDiffs>,
) -> (r: Result<String, String>)
    ensures
        match diff_failure(source@, dest@) {
            Some(e) => {
                &&& result_text(r) == Err::<Seq<char>, Seq<char>>(e)
                &&& *final(session) == *old(session)
                &&& *final(project_config) == *old(project_config)
            },
            None => {
                &&& result_text(r) == Ok::<Seq<char>, Seq<char>>(Seq::empty())
                &&& final(project_config)@.len() == old(project_config)@.len() + 1
                &&& final(project_config)@.drop_last() == old(project_config)@
                &&& final(project_config)@.last()@.name == "Auth"@
                &&& is_diff(
                    final(project_config)@.last()@.diffs,
                    config_members(fetched(source@)->Ok_0)->0,
                    config_members(fetched(dest@)->Ok_0)->0,
                )
                &&& final(session)@ == (SessionView {
                    auth: Some(fetched(source@)->Ok_0),
                    ..old(session)@
                })
            },
        },
{
    match diff_configs(source, dest) {
        Ok((entry, src_cfg)) => {
            let ghost before = project_config@;
            project_config.push(entry);
            session.auth = Some(src_cfg);
            proof {
                assert(project_config@.drop_last() =~= before);
            }
            Ok(String::new())
        },
        Err(e) => Err(e),
    }
}

/// The preview on a session record, given what the two fetches come to
/// should they be made: without a token nothing is fetched; with one, and
/// with `auth` asked for, the reply holds the diff of the Auth domain and
/// the session keeps the text of the source.
pub fn preview_handler(
    app_state: &AppState,
    params: &PreviewQuery,
    session: &mut SessionRecord,
    source: HttpOutcome,
    dest: HttpOutcome,
) -> (r: Result<PreviewResponse, String>)
    ensures
        old(session)@.supabase_access_token is None ==> r is Err && r->Err_0@ == UNAUTHORIZED@
            && *final(session) == *old(session),
        old(session)@.supabase_access_token is Some && !params.auth ==> r is Ok
            && r->Ok_0.configs@.len() == 0 && *final(session) == *old(session),
        old(session)@.supabase_access_token is Some && params.auth ==> match diff_failure(
            source@,
            dest@,
        ) {
            Some(e) => r is Err && r->Err_0@ == e && *final(session) == *old(session),
            None => r is Ok && r->Ok_0.configs@.len() == 1 && r->Ok_0.configs@[0]@.name == "Auth"@
                && is_diff(
                r->Ok_0.configs@[0]@.diffs,
                config_members(fetched(source@)->Ok_0)->0,
                config_members(fetched(dest@)->Ok_0)->0,
            ) && final(session)@ == (SessionView {
                auth: Some(fetched(source@)->Ok_0),
                ..old(session)@
            }),
        },
{
    if session.supabase_access_token.is_none() {
        return Err(UNAUTHORIZED.to_owned());
    }
    let mut project_config: Vec<ProjectDiffs> = Vec::new();
    if params.auth {
        match process_config_diffs(session, source, dest, &mut project_config) {
            Ok(_) => {},
            Err(e) => {
                return Err(e);
            },
        }
    }
    Ok(PreviewResponse { configs: project_config })
}

} // verus!
