//! The start of a login: fresh secrets, kept in the session, and the
//! address of the platform's authorization page that carries them.
use crate::handlers::auth::signout_handler::Status;
use crate::handlers::oauth::callback_handler::pairs_view;
use crate::models::app_config::{AppConfig, AppState};
use crate::models::oauth::{OAuthSessionData, OAuthSessionDataView};
use crate::session::SessionRecord;
use crate::text::opt_text;
use vstd::prelude::*;

verus! {

/// Where the browser is sent to authorize.
pub const AUTHORIZE_ENDPOINT: &'static str = "https://api.supabase.com/v1/oauth/authorize";

/// Whether a character is of the alphabet of base64 for addresses.
pub open spec fn is_url_safe(c: char) -> bool {
    ('A' <= c <= 'Z') || ('a' <= c <= 'z') || ('0' <= c <= '9') || c == '-' || c == '_'
}

/// Whether a text is made of that alphabet alone.
pub open spec fn url_safe(s: Seq<char>) -> bool {
    forall|i: int| 0 <= i < s.len() ==> is_url_safe(#[trigger] s[i])
}

/// The challenge of a verifier: its SHA-256 digest in base64 for
/// addresses, without padding.
pub uninterp spec fn pkce_challenge(verifier: Seq<char>) -> Seq<char>;

/// A fresh verifier and its challenge, from
/// `oauth2::PkceCodeChallenge::new_random_sha256`: the verifier is 32
/// random bytes in base64 for addresses without padding, which makes 43
/// characters, and the challenge is computed from the verifier.
#[verifier::external_body]
fn new_pkce_pair() -> (r: (String, String))
    ensures
        r.0@ == pkce_challenge(r.1@),
        r.1@.len() == 43,
        url_safe(r.1@),
{
    let (challenge, verifier) = oauth2::PkceCodeChallenge::new_random_sha256();
    (challenge.as_str().to_owned(), verifier.secret().clone())
}

/// A fresh token from `oauth2::CsrfToken::new_random`: 16 random bytes in
/// base64 for addresses without padding, which makes 22 characters.
#[verifier::external_body]
fn new_csrf_token() -> (r: String)
    ensures
        r@.len() == 22,
        url_safe(r@),
{
    oauth2::CsrfToken::new_random().secret().clone()
}

/// The address that is `base` with the pairs added to its query, each
/// encoded as a form field, if `base` is an address.
pub uninterp spec fn url_with_query(base: Seq<char>, pairs: Seq<(Seq<char>, Seq<char>)>) -> Option<
    Seq<char>,
>;

/// Whether a text is an address: one to whose query pairs can be added.
pub open spec fn is_address(base: Seq<char>) -> bool {
    url_with_query(base, Seq::empty()) is Some
}

/// Parses `base` with `reqwest::Url::parse`, adds the pairs to its query
/// with `extend_pairs`, and writes the address out. `None` where `base`
/// does not parse, and only there: once `base` is parsed nothing fails,
/// so whether there is a result does not depend on the pairs.
#[verifier::external_body]
fn build_url(base: &str, pairs: &Vec<(String, String)>) -> (r: Option<String>)
    requires
        base@.len() <= 2048,
    ensures
        opt_text(r) == url_with_query(base@, pairs_view(pairs@)),
        r is Some <==> is_address(base@),
{
    let mut url = reqwest::Url::parse(base).ok()?;
    url.query_pairs_mut().extend_pairs(pairs);
    Some(url.to_string())
}

/// The query of the authorization address, in the order in which it is
/// written.
pub open spec fn authorize_query(config: AppConfig, state: Seq<char>, challenge: Seq<char>) -> Seq<
    (Seq<char>, Seq<char>),
> {
    seq![
        ("client_id"@, config.client_id@),
        ("redirect_uri"@, config.redirect_url@),
        ("response_type"@, "code"@),
        ("state"@, state),
        ("code_challenge"@, challenge),
        ("code_challenge_method"@, "S256"@),
    ]
}

/// The authorization address for a token and a challenge, if there is
/// one.
pub open spec fn authorize_url(config: AppConfig, state: Seq<char>, challenge: Seq<char>) -> Option<
    Seq<char>,
> {
    url_with_query(AUTHORIZE_ENDPOINT@, authorize_query(config, state, challenge))
}

/// What a login does: it writes the data into the session, and once that
/// is done sends the browser to the address.
#[derive(Debug)]
pub struct LoginPlan {
    pub session_data: OAuthSessionData,
    pub redirect: String,
}

/// The plan of a login with these secrets: the verifier and the token go
/// into the session, the token and the challenge into the address. There
/// is a plan exactly if the authorization endpoint is an address, whatever
/// the settings and the secrets.
pub fn login_plan(config: &AppConfig, challenge: String, verifier: String, csrf: String) -> (r:
    Option<LoginPlan>)
    ensures
        r is Some <==> is_address(AUTHORIZE_ENDPOINT@),
        match authorize_url(*config, csrf@, challenge@) {
            Some(url) => r is Some && r->0.redirect@ == url && r->0.session_data@ == (
            OAuthSessionDataView {
                pkce_verifier_secret: Some(verifier@),
                csrf_token_secret: Some(csrf@),
            }),
            None => r is None,
        },
{
    let mut query: Vec<(String, String)> = Vec::new();
    query.push(("client_id".to_owned(), config.client_id.clone()));
    query.push(("redirect_uri".to_owned(), config.redirect_url.clone()));
    query.push(("response_type".to_owned(), "code".to_owned()));
    query.push(("state".to_owned(), csrf.clone()));
    query.push(("code_challenge".to_owned(), challenge));
    query.push(("code_challenge_method".to_owned(), "S256".to_owned()));
    proof {
        reveal_strlit("https://api.supabase.com/v1/oauth/authorize");
        assert(pairs_view(query@) =~= authorize_query(*config, csrf@, challenge@));
    }
    match build_url(AUTHORIZE_ENDPOINT, &query) {
        Some(redirect) => Some(
            LoginPlan {
                session_data: OAuthSessionData {
                    pkce_verifier_secret: Some(verifier),
                    csrf_token_secret: Some(csrf),
                },
                redirect,
            },
        ),
        None => None,
    }
}

/// The plan of a login with fresh secrets: a verifier of 43 characters
/// and a token of 22, both of the alphabet of base64 for addresses, and
/// the address that carries the token and the challenge of the verifier.
/// There is a plan exactly if the authorization endpoint is an address.
pub fn login_begin(config: &AppConfig) -> (r: Option<LoginPlan>)
    ensures
        r is Some <==> is_address(AUTHORIZE_ENDPOINT@),
        r matches Some(plan) ==> {
            let data = plan.session_data@;
            &&& data.pkce_verifier_secret matches Some(verifier) && verifier.len() == 43
                && url_safe(verifier)
            &&& data.csrf_token_secret matches Some(csrf) && csrf.len() == 22 && url_safe(csrf)
            &&& authorize_url(
                *config,
                data.csrf_token_secret->0,
                pkce_challenge(data.pkce_verifier_secret->0),
            ) == Some(plan.redirect@)
        },
{
    let (pkce_challenge, pkce_verifier) = new_pkce_pair();
    let csrf_token = new_csrf_token();
    login_plan(config, pkce_challenge, pkce_verifier, csrf_token)
}

/// What the login answers once the data was handed to the session: the
/// address to send the browser to, or, where the data could not be
/// stored, an error in place of a redirect that the callback could not
/// honour.
pub fn login_stored(redirect: String, stored: bool) -> (r: Result<String, Status>)
    ensures
        r == if stored {
            Ok::<String, Status>(redirect)
        } else {
            Err::<String, Status>(Status::InternalServerError)
        },
{
    if stored {
        Ok(redirect)
    } else {
        Err(Status::InternalServerError)
    }
}

/// Starts a login on a session record: puts fresh secrets into the slot
/// of the login data, in place of any that were there, and returns the
/// address to send the browser to. There is an address exactly if the
/// authorization endpoint is one; without it nothing is written.
pub fn login_handler(app_state: &AppState, session: &mut SessionRecord) -> (r: Option<String>)
    ensures
        r is Some <==> is_address(AUTHORIZE_ENDPOINT@),
        match r {
            Some(url) => {
                &&& final(session)@.supabase_access_token == old(session)@.supabase_access_token
                &&& final(session)@.auth == old(session)@.auth
                &&& final(session)@.oauth_data matches Some(data) && {
                    &&& data.pkce_verifier_secret matches Some(verifier) && verifier.len() == 43
                        && url_safe(verifier)
                    &&& data.csrf_token_secret matches Some(csrf) && csrf.len() == 22 && url_safe(
                        csrf,
                    )
                    &&& authorize_url(
                        app_state.config,
                        data.csrf_token_secret->0,
                        pkce_challenge(data.pkce_verifier_secret->0),
                    ) == Some(url@)
                }
            },
            None => *final(session) == *old(session),
        },
{
    match login_begin(&app_state.config) {
        Some(plan) => {
            session.oauth_data = Some(plan.session_data);
            match login_stored(plan.redirect, true) {
                Ok(url) => Some(url),
                Err(_) => None,
            }
        },
        None => None,
    }
}

} // verus!
