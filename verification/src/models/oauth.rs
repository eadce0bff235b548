//! Records of the authorization-code flow.
use crate::json::{find, json_document, lookup, parse_document, JsonDocument, JsonDocumentView, JsonValue, JsonValueView};
use crate::text::opt_text;
use vstd::prelude::*;

verus! {

/// What login leaves in the session for the callback: the PKCE verifier and
/// the CSRF token that was sent as `state`.
#[derive(Debug)]
pub struct OAuthSessionData {
    pub pkce_verifier_secret: Option<String>,
    pub csrf_token_secret: Option<String>,
}

/// The contents of an [`OAuthSessionData`].
pub struct OAuthSessionDataView {
    pub pkce_verifier_secret: Option<Seq<char>>,
    pub csrf_token_secret: Option<Seq<char>>,
}

impl View for OAuthSessionData {
    type V = OAuthSessionDataView;

    open spec fn view(&self) -> OAuthSessionDataView {
        OAuthSessionDataView {
            pkce_verifier_secret: opt_text(self.pkce_verifier_secret),
            csrf_token_secret: opt_text(self.csrf_token_secret),
        }
    }
}

impl Default for OAuthSessionData {
    fn default() -> (r: Self)
        ensures
            r.pkce_verifier_secret is None,
            r.csrf_token_secret is None,
    {
        OAuthSessionData { pkce_verifier_secret: None, csrf_token_secret: None }
    }
}

impl Clone for OAuthSessionData {
    fn clone(&self) -> (r: Self)
        ensures
            r == *self,
    {
        OAuthSessionData {
            pkce_verifier_secret: crate::text::clone_opt(&self.pkce_verifier_secret),
            csrf_token_secret: crate::text::clone_opt(&self.csrf_token_secret),
        }
    }
}

/// The query of the callback request.
#[derive(Debug)]
pub struct CallbackParams {
    pub code: String,
    pub state: String,
}

/// What the token endpoint grants.
pub struct TokenResponse {
    pub access_token: String,
    pub refresh_token: Option<String>,
}

/// The contents of a [`TokenResponse`].
pub struct TokenResponseView {
    pub access_token: Seq<char>,
    pub refresh_token: Option<Seq<char>>,
}

impl View for TokenResponse {
    type V = TokenResponseView;

    open spec fn view(&self) -> TokenResponseView {
        TokenResponseView {
            access_token: self.access_token@,
            refresh_token: opt_text(self.refresh_token),
        }
    }
}

/// The grant that a document holds: `access_token` must be a string, and
/// `refresh_token` a string, null or missing. Other members are ignored.
pub open spec fn token_of(document: Option<JsonDocumentView>) -> Option<TokenResponseView> {
    match document {
        Some(JsonDocumentView::Object(members)) => match lookup(members, "access_token"@) {
            Some(JsonValueView::Text(access_token)) => match lookup(members, "refresh_token"@) {
                None | Some(JsonValueView::Null) => Some(
                    TokenResponseView { access_token, refresh_token: None },
                ),
                Some(JsonValueView::Text(refresh_token)) => Some(
                    TokenResponseView { access_token, refresh_token: Some(refresh_token) },
                ),
                _ => None,
            },
            _ => None,
        },
        _ => None,
    }
}

/// The contents of a grant that may be missing.
pub open spec fn token_view(t: Option<TokenResponse>) -> Option<TokenResponseView> {
    match t {
        Some(t) => Some(t@),
        None => None,
    }
}

impl TokenResponse {
    /// The grant that a document holds, if it holds one.
    pub fn from_document(document: &JsonDocument) -> (r: Option<Self>)
        ensures
            token_view(r) == token_of(Some(document@)),
    {
        let members = match document {
            JsonDocument::Object(members) => members,
            JsonDocument::Other => return None,
        };
        let access_token = match find(members, "access_token") {
            Some(JsonValue::Text(t)) => t.clone(),
            _ => return None,
        };
        let refresh_token = match find(members, "refresh_token") {
            None => None,
            Some(JsonValue::Null) => None,
            Some(JsonValue::Text(t)) => Some(t.clone()),
            _ => return None,
        };
        Some(TokenResponse { access_token, refresh_token })
    }

    /// The grant that the body of a reply holds, if it is a JSON text that
    /// holds one.
    pub fn from_json(body: &str) -> (r: Option<Self>)
        ensures
            token_view(r) == token_of(json_document(body@)),
    {
        match parse_document(body) {
            Some(document) => Self::from_document(&document),
            None => None,
        }
    }
}

} // verus!
