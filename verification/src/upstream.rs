//! What is sent to the platform and what comes back, as plain values.
use crate::session::SessionRead;
use crate::text::{concat2, opt_text, result_text};
use vstd::prelude::*;

verus! {

/// The root of the Management API.
pub const API_BASE: &'static str = "https://api.supabase.com/v1";

/// What came of sending a request: no reply at all, with the words of the
/// failure, or a reply with its status and, where it could be read, its
/// body.
#[derive(Debug)]
pub enum HttpOutcome {
    TransportFailed(String),
    Replied { status: u16, body: Option<String> },
}

/// The contents of an [`HttpOutcome`].
pub enum HttpOutcomeView {
    TransportFailed(Seq<char>),
    Replied { status: u16, body: Option<Seq<char>> },
}

impl View for HttpOutcome {
    type V = HttpOutcomeView;

    open spec fn view(&self) -> HttpOutcomeView {
        match self {
            HttpOutcome::TransportFailed(why) => HttpOutcomeView::TransportFailed(why@),
            HttpOutcome::Replied { status, body } => HttpOutcomeView::Replied {
                status: *status,
                body: opt_text(*body),
            },
        }
    }
}

/// Whether a status reports success.
pub open spec fn is_success(status: u16) -> bool {
    200 <= status <= 299
}

/// Whether a status reports success.
pub fn status_is_success(status: u16) -> (r: bool)
    ensures
        r == is_success(status),
{
    200 <= status && status <= 299
}

/// What a handler answers where the session holds no token.
pub const UNAUTHORIZED: &'static str = "Management API is Unauthorized";

/// The bearer token for a call of the Management API, from what reading
/// the token slot gave: without a token that was read there is no call.
pub fn authorize(token: SessionRead<String>) -> (r: Result<String, String>)
    ensures
        match token {
            SessionRead::Present(t) => r == Ok::<String, String>(t),
            _ => result_text(r) == Err::<Seq<char>, Seq<char>>(UNAUTHORIZED@),
        },
{
    match token {
        SessionRead::Present(t) => Ok(t),
        _ => Err(UNAUTHORIZED.to_owned()),
    }
}

/// How a request to the Management API is sent.
#[derive(Debug, Clone, Copy, PartialEq, Eq, Structural)]
pub enum ApiMethod {
    Get,
    Patch,
}

/// A request to the Management API. It is sent with the header
/// `Authorization` as given and with `Accept: application/json`; one with
/// a body also says `Content-Type: application/json`.
#[derive(Debug, Clone, PartialEq, Eq)]
pub struct ApiRequest {
    pub method: ApiMethod,
    pub url: String,
    pub authorization: String,
    pub body: Option<String>,
}

/// The contents of an [`ApiRequest`].
pub struct ApiRequestView {
    pub method: ApiMethod,
    pub url: Seq<char>,
    pub authorization: Seq<char>,
    pub body: Option<Seq<char>>,
}

impl View for ApiRequest {
    type V = ApiRequestView;

    open spec fn view(&self) -> ApiRequestView {
        ApiRequestView {
            method: self.method,
            url: self.url@,
            authorization: self.authorization@,
            body: opt_text(self.body),
        }
    }
}

/// The address of a path of the Management API.
pub open spec fn api_url(path: Seq<char>) -> Seq<char> {
    API_BASE@ + path
}

/// The header value that carries a bearer token.
pub open spec fn bearer(token: Seq<char>) -> Seq<char> {
    "Bearer "@ + token
}

/// The path of a tenant's Auth configuration.
pub open spec fn auth_config_path(project: Seq<char>) -> Seq<char> {
    "/projects/"@ + project + "/config/auth"@
}

/// The path of a tenant's Auth configuration.
pub fn auth_config_url(project: &str) -> (r: String)
    ensures
        r@ == auth_config_path(project@),
{
    crate::text::concat3("/projects/", project, "/config/auth")
}

/// The request that reads a path of the Management API with a token.
pub fn get_request(token: &str, path: &str) -> (r: ApiRequest)
    ensures
        r@ == (ApiRequestView {
            method: ApiMethod::Get,
            url: api_url(path@),
            authorization: bearer(token@),
            body: None,
        }),
{
    ApiRequest {
        method: ApiMethod::Get,
        url: concat2(API_BASE, path),
        authorization: concat2("Bearer ", token),
        body: None,
    }
}

/// The request that patches a path of the Management API with a token and
/// a JSON body.
pub fn patch_request(token: &str, path: &str, body: String) -> (r: ApiRequest)
    ensures
        r@ == (ApiRequestView {
            method: ApiMethod::Patch,
            url: api_url(path@),
            authorization: bearer(token@),
            body: Some(body@),
        }),
{
    ApiRequest {
        method: ApiMethod::Patch,
        url: concat2(API_BASE, path),
        authorization: concat2("Bearer ", token),
        body: Some(body),
    }
}

} // verus!
