//! The tenants that the signed-in user can reach.
use crate::json::{documents_view, json_array, parse_array, JsonDocument, JsonDocumentView};
use crate::models::app_config::AppState;
use crate::models::migrate::{project_of, projects_view, Project, ProjectView};
use crate::session::SessionRecord;
use crate::upstream::{api_url, bearer, get_request, ApiMethod, ApiRequest, ApiRequestView, HttpOutcome, HttpOutcomeView, UNAUTHORIZED};
use vstd::prelude::*;

verus! {

/// The request that lists the tenants.
pub fn project_list_request(token: &String) -> (r: ApiRequest)
    ensures
        r@ == (ApiRequestView {
            method: ApiMethod::Get,
            url: api_url("/projects"@),
            authorization: bearer(token@),
            body: None,
        }),
{
    get_request(token.as_str(), "/projects")
}

/// Whether every document describes a tenant.
pub open spec fn all_projects(documents: Seq<JsonDocumentView>) -> bool {
    forall|i: int| 0 <= i < documents.len() ==> (#[trigger] project_of(documents[i])) is Some
}

/// The tenants that a list of documents describes.
pub open spec fn projects_of(documents: Seq<JsonDocumentView>) -> Seq<ProjectView> {
    documents.map_values(|d: JsonDocumentView| project_of(d)->0)
}

/// The tenants that a list of documents describes, if each describes
/// one.
pub fn projects_from(documents: &Vec<JsonDocument>) -> (r: Option<Vec<Project>>)
    ensures
        match r {
            Some(list) => all_projects(documents_view(documents@)) && projects_view(list@)
                == projects_of(documents_view(documents@)),
            None => !all_projects(documents_view(documents@)),
        },
{
    let ghost all = documents_view(documents@);
    let mut out: Vec<Project> = Vec::new();
    let mut i: usize = 0;
    while i < documents.len()
        invariant
            i <= documents.len(),
            all == documents_view(documents@),
            out@.len() == i,
            forall|j: int| 0 <= j < i ==> #[trigger] project_of(all[j]) == Some(out@[j]@),
        decreases documents.len() - i,
    {
        match Project::from_document(&documents[i]) {
            Some(p) => {
                out.push(p);
            },
            None => {
                proof {
                    assert(project_of(all[i as int]) is None);
                }
                return None;
            },
        }
        i = i + 1;
    }
    proof {
        assert(projects_view(out@) =~= projects_of(all));
    }
    Some(out)
}

/// The tenants in the body of a reply, if the body is a JSON array of
/// tenants. The status of the reply does not matter.
pub open spec fn listed(outcome: HttpOutcomeView) -> Option<Seq<ProjectView>> {
    match outcome {
        HttpOutcomeView::Replied { status, body: Some(text) } => match json_array(text) {
            Some(documents) => if all_projects(documents) {
                Some(projects_of(documents))
            } else {
                None
            },
            None => None,
        },
        _ => None,
    }
}

/// Why the list of tenants cannot be given, if it cannot.
pub open spec fn list_failure(outcome: HttpOutcomeView) -> Option<Seq<char>> {
    match outcome {
        HttpOutcomeView::TransportFailed(_) => Some("Error getting response from API"@),
        _ => if listed(outcome) is None {
            Some("Error getting Projects"@)
        } else {
            None
        },
    }
}

/// The tenants in the reply to the listing request.
pub fn project_list_reply(outcome: HttpOutcome) -> (r: Result<Vec<Project>, String>)
    ensures
        match list_failure(outcome@) {
            Some(e) => r is Err && r->Err_0@ == e,
            None => r is Ok && Some(projects_view(r->Ok_0@)) == listed(outcome@),
        },
{
    let text = match outcome {
        HttpOutcome::TransportFailed(_) => {
            return Err("Error getting response from API".to_owned());
        },
        HttpOutcome::Replied { status, body: None } => {
            return Err("Error getting Projects".to_owned());
        },
        HttpOutcome::Replied { status, body: Some(text) } => text,
    };
    let list = match parse_array(text.as_str()) {
        Some(documents) => projects_from(&documents),
        None => None,
    };
    match list {
        Some(list) => Ok(list),
        None => Err("Error getting Projects".to_owned()),
    }
}

/// The listing on a session record, given what the request comes to
/// should it be sent: without a token nothing is sent.
pub fn project_list_handler(
    app_state: &AppState,
    session: &SessionRecord,
    outcome: HttpOutcome,
) -> (r: Result<Vec<Project>, String>)
    ensures
        session@.supabase_access_token is None ==> r is Err && r->Err_0@ == UNAUTHORIZED@,
        session@.supabase_access_token is Some ==> match list_failure(outcome@) {
            Some(e) => r is Err && r->Err_0@ == e,
            None => r is Ok && Some(projects_view(r->Ok_0@)) == listed(outcome@),
        },
{
    if session.supabase_access_token.is_none() {
        return Err(UNAUTHORIZED.to_owned());
    }
    project_list_reply(outcome)
}

} // verus!
